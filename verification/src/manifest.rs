//! The plugin manifest model: parsing, validation and serialization of the
//! descriptor document.
//!
//! A descriptor has a mandatory `plugin` section and optional `paii`,
//! `provides`, `consumes`, `config`, `hooks` and `build` sections; unknown
//! top-level sections are accepted and ignored.  The name and version are
//! non-empty.  Parsing and serialization work on [`DocValue`] trees; the
//! codec module moves those across text.

use vstd::prelude::*;
use crate::codec::{doc_of_text, parse_text, render_doc, text_of_doc};
use crate::doc::{dv, tbl_get, tbl_get_from, DocV, DocValue, ents_view, arr_view, lemma_arr_view, lemma_ents_view, lemma_tbl_get_skip, table_get};
use crate::errors::CoreError;
use crate::strutil::str_eq;

verus! {

/// The language a plugin is executed as; it selects the execution path and
/// the scaffold that is generated for a new plugin.
#[derive(Debug, Clone, Copy, PartialEq, Eq, Structural)]
pub enum PluginLanguage {
    Python,
    Rust,
    Mixed,
}

impl Default for PluginLanguage {
    /// The language used when a manifest names none.
    fn default() -> (r: PluginLanguage)
        ensures
            r == PluginLanguage::Python,
    {
        PluginLanguage::Python
    }
}

/// How a plugin is built.
#[derive(Debug, Clone, Copy, PartialEq, Eq, Structural)]
pub enum BuildType {
    Uv,
    Cargo,
    Custom,
}

impl Default for BuildType {
    /// The build type used when a manifest names none.
    fn default() -> (r: BuildType)
        ensures
            r == BuildType::Uv,
    {
        BuildType::Uv
    }
}

/// The hook events a plugin subscribes to.
#[derive(Debug, Clone, Copy, PartialEq, Eq, Structural)]
pub struct HooksSpec {
    pub pre_tool_use: bool,
    pub post_tool_use: bool,
    pub stop: bool,
    pub session_start: bool,
    pub session_end: bool,
    pub subagent_stop: bool,
}

impl Default for HooksSpec {
    /// No subscriptions.
    fn default() -> (r: HooksSpec)
        ensures
            r == (HooksSpec {
                pre_tool_use: false,
                post_tool_use: false,
                stop: false,
                session_start: false,
                session_end: false,
                subagent_stop: false,
            }),
    {
        HooksSpec {
            pre_tool_use: false,
            post_tool_use: false,
            stop: false,
            session_start: false,
            session_end: false,
            subagent_stop: false,
        }
    }
}

/// What the plugin requires of the runtime.
#[derive(Debug, Clone)]
pub struct PaiiRequirements {
    pub core_version: Option<String>,
}

/// A capability the plugin offers, either as a bare contract name or with a
/// service label.
#[derive(Debug, Clone)]
pub enum ProvideSpec {
    Simple(String),
    Detailed { contract: String, service: Option<String> },
}

/// A capability the plugin consumes.
#[derive(Debug, Clone)]
pub struct ConsumeSpec {
    pub contract: String,
    pub optional: bool,
    pub service: Option<String>,
}

/// One key of the plugin's configuration schema.
#[derive(Debug)]
pub struct ConfigSpec {
    pub value_type: String,
    pub required: bool,
    pub default: Option<DocValue>,
    pub env: Option<String>,
    pub secret: bool,
}

/// The build descriptor.
#[derive(Debug, Clone)]
pub struct BuildSpec {
    pub build_type: BuildType,
    pub requirements: Option<String>,
    pub install_command: Option<String>,
    pub build_command: Option<String>,
}

/// The `plugin` section: identity and provenance of the plugin.
#[derive(Debug, Clone)]
pub struct PluginInfo {
    pub name: String,
    pub version: String,
    pub description: String,
    pub authors: Vec<String>,
    pub language: PluginLanguage,
    pub license: Option<String>,
    pub repository: Option<String>,
    pub homepage: Option<String>,
    pub keywords: Vec<String>,
}

/// A parsed descriptor document.
#[derive(Debug)]
pub struct PluginManifest {
    pub plugin: PluginInfo,
    pub paii: PaiiRequirements,
    pub provides: Vec<(String, ProvideSpec)>,
    pub consumes: Vec<(String, ConsumeSpec)>,
    pub config: Vec<(String, ConfigSpec)>,
    pub hooks: HooksSpec,
    pub build: BuildSpec,
}

/// A rejected descriptor: `field` is the dotted path of the offending field.
#[derive(Debug, Clone)]
pub struct ParseFailure {
    pub field: String,
}

impl View for ParseFailure {
    type V = Seq<char>;

    open spec fn view(&self) -> Seq<char> {
        self.field@
    }
}

/// The spec value of an optional string.
pub open spec fn osv(o: Option<String>) -> Option<Seq<char>> {
    match o {
        Some(s) => Some(s@),
        None => None,
    }
}

/// The spec value of a vector of strings.
pub open spec fn strs_view(v: Seq<String>) -> Seq<Seq<char>> {
    v.map_values(|s: String| s@)
}

/// Spec shape of [`PluginInfo`].
pub struct InfoV {
    pub name: Seq<char>,
    pub version: Seq<char>,
    pub description: Seq<char>,
    pub authors: Seq<Seq<char>>,
    pub language: PluginLanguage,
    pub license: Option<Seq<char>>,
    pub repository: Option<Seq<char>>,
    pub homepage: Option<Seq<char>>,
    pub keywords: Seq<Seq<char>>,
}

impl View for PluginInfo {
    type V = InfoV;

    open spec fn view(&self) -> InfoV {
        InfoV {
            name: self.name@,
            version: self.version@,
            description: self.description@,
            authors: strs_view(self.authors@),
            language: self.language,
            license: osv(self.license),
            repository: osv(self.repository),
            homepage: osv(self.homepage),
            keywords: strs_view(self.keywords@),
        }
    }
}

/// Spec shape of [`ProvideSpec`].
pub enum ProvideV {
    Simple(Seq<char>),
    Detailed { contract: Seq<char>, service: Option<Seq<char>> },
}

impl View for ProvideSpec {
    type V = ProvideV;

    open spec fn view(&self) -> ProvideV {
        match self {
            ProvideSpec::Simple(s) => ProvideV::Simple(s@),
            ProvideSpec::Detailed { contract, service } => ProvideV::Detailed {
                contract: contract@,
                service: osv(*service),
            },
        }
    }
}

/// Spec shape of [`ConsumeSpec`].
pub struct ConsumeV {
    pub contract: Seq<char>,
    pub optional: bool,
    pub service: Option<Seq<char>>,
}

impl View for ConsumeSpec {
    type V = ConsumeV;

    open spec fn view(&self) -> ConsumeV {
        ConsumeV { contract: self.contract@, optional: self.optional, service: osv(self.service) }
    }
}

/// Spec shape of [`ConfigSpec`].
pub struct ConfigV {
    pub value_type: Seq<char>,
    pub required: bool,
    pub default: Option<DocV>,
    pub env: Option<Seq<char>>,
    pub secret: bool,
}

impl View for ConfigSpec {
    type V = ConfigV;

    open spec fn view(&self) -> ConfigV {
        ConfigV {
            value_type: self.value_type@,
            required: self.required,
            default: match self.default {
                Some(d) => Some(dv(d)),
                None => None,
            },
            env: osv(self.env),
            secret: self.secret,
        }
    }
}

/// Spec shape of [`BuildSpec`].
pub struct BuildV {
    pub build_type: BuildType,
    pub requirements: Option<Seq<char>>,
    pub install_command: Option<Seq<char>>,
    pub build_command: Option<Seq<char>>,
}

impl View for BuildSpec {
    type V = BuildV;

    open spec fn view(&self) -> BuildV {
        BuildV {
            build_type: self.build_type,
            requirements: osv(self.requirements),
            install_command: osv(self.install_command),
            build_command: osv(self.build_command),
        }
    }
}

/// The spec value of a keyed sequence, pairing each key's view with the
/// entry's view.
pub open spec fn provides_pairs(v: Seq<(String, ProvideSpec)>) -> Seq<(Seq<char>, ProvideV)> {
    Seq::new(v.len(), |i: int| (v[i].0@, v[i].1@))
}

/// The spec value of a keyed sequence of consumed contracts.
pub open spec fn consumes_pairs(v: Seq<(String, ConsumeSpec)>) -> Seq<(Seq<char>, ConsumeV)> {
    Seq::new(v.len(), |i: int| (v[i].0@, v[i].1@))
}

/// The spec value of a keyed configuration schema.
pub open spec fn config_pairs(v: Seq<(String, ConfigSpec)>) -> Seq<(Seq<char>, ConfigV)> {
    Seq::new(v.len(), |i: int| (v[i].0@, v[i].1@))
}

/// Spec shape of [`PluginManifest`].
pub struct ManifestV {
    pub plugin: InfoV,
    pub core_version: Option<Seq<char>>,
    pub provides: Seq<(Seq<char>, ProvideV)>,
    pub consumes: Seq<(Seq<char>, ConsumeV)>,
    pub config: Seq<(Seq<char>, ConfigV)>,
    pub hooks: HooksSpec,
    pub build: BuildV,
}

impl View for PluginManifest {
    type V = ManifestV;

    open spec fn view(&self) -> ManifestV {
        ManifestV {
            plugin: self.plugin@,
            core_version: osv(self.paii.core_version),
            provides: provides_pairs(self.provides@),
            consumes: consumes_pairs(self.consumes@),
            config: config_pairs(self.config@),
            hooks: self.hooks,
            build: self.build@,
        }
    }
}

// ---------------------------------------------------------------------------
// Field readers over table entries
// ---------------------------------------------------------------------------

/// The string value of a field, when the field is present and a string.
pub open spec fn field_str(t: Seq<(Seq<char>, DocV)>, k: Seq<char>) -> Option<Seq<char>> {
    match tbl_get(t, k) {
        Some(DocV::Str(s)) => Some(s),
        _ => None,
    }
}

/// An optional string field is well-formed when it is absent or a string.
pub open spec fn opt_str_field_ok(t: Seq<(Seq<char>, DocV)>, k: Seq<char>) -> bool {
    match tbl_get(t, k) {
        None => true,
        Some(DocV::Str(_)) => true,
        _ => false,
    }
}

/// An optional boolean field is well-formed when it is absent or a boolean.
pub open spec fn bool_field_ok(t: Seq<(Seq<char>, DocV)>, k: Seq<char>) -> bool {
    match tbl_get(t, k) {
        None => true,
        Some(DocV::Bool(_)) => true,
        _ => false,
    }
}

/// The value of an optional boolean field; absent means `false`.
pub open spec fn field_bool(t: Seq<(Seq<char>, DocV)>, k: Seq<char>) -> bool {
    match tbl_get(t, k) {
        Some(DocV::Bool(b)) => b,
        _ => false,
    }
}

/// Every element of the array is a string.
pub open spec fn all_strs(a: Seq<DocV>) -> bool {
    forall|i: int| 0 <= i < a.len() ==> a[i] is Str
}

/// The strings of an array of string nodes.
pub open spec fn strs_of(a: Seq<DocV>) -> Seq<Seq<char>> {
    a.map_values(|d: DocV| d->Str_0)
}

/// An optional string-array field is well-formed when it is absent or an
/// array of strings.
pub open spec fn str_arr_field_ok(t: Seq<(Seq<char>, DocV)>, k: Seq<char>) -> bool {
    match tbl_get(t, k) {
        None => true,
        Some(DocV::Arr(a)) => all_strs(a),
        _ => false,
    }
}

/// The value of an optional string-array field; absent means empty.
pub open spec fn str_arr_field(t: Seq<(Seq<char>, DocV)>, k: Seq<char>) -> Seq<Seq<char>> {
    match tbl_get(t, k) {
        Some(DocV::Arr(a)) => strs_of(a),
        _ => Seq::empty(),
    }
}

/// The language a name denotes.
pub open spec fn lang_of_name(s: Seq<char>) -> Option<PluginLanguage> {
    if s == "python"@ {
        Some(PluginLanguage::Python)
    } else if s == "rust"@ {
        Some(PluginLanguage::Rust)
    } else if s == "mixed"@ {
        Some(PluginLanguage::Mixed)
    } else {
        None
    }
}

/// The name of a language.
pub open spec fn lang_name(l: PluginLanguage) -> Seq<char> {
    match l {
        PluginLanguage::Python => "python"@,
        PluginLanguage::Rust => "rust"@,
        PluginLanguage::Mixed => "mixed"@,
    }
}

/// The build type a name denotes.
pub open spec fn build_of_name(s: Seq<char>) -> Option<BuildType> {
    if s == "uv"@ {
        Some(BuildType::Uv)
    } else if s == "cargo"@ {
        Some(BuildType::Cargo)
    } else if s == "custom"@ {
        Some(BuildType::Custom)
    } else {
        None
    }
}

/// The name of a build type.
pub open spec fn build_name(b: BuildType) -> Seq<char> {
    match b {
        BuildType::Uv => "uv"@,
        BuildType::Cargo => "cargo"@,
        BuildType::Custom => "custom"@,
    }
}

/// The language field is well-formed when absent or naming a language.
pub open spec fn lang_field_ok(t: Seq<(Seq<char>, DocV)>) -> bool {
    match tbl_get(t, "language"@) {
        None => true,
        Some(DocV::Str(s)) => lang_of_name(s) is Some,
        _ => false,
    }
}

/// The language of the section; absent means the default.
pub open spec fn lang_field(t: Seq<(Seq<char>, DocV)>) -> PluginLanguage {
    match tbl_get(t, "language"@) {
        Some(DocV::Str(s)) => if lang_of_name(s) is Some {
            lang_of_name(s)->0
        } else {
            PluginLanguage::Python
        },
        _ => PluginLanguage::Python,
    }
}

// ---------------------------------------------------------------------------
// Spec-level parsing, section by section
// ---------------------------------------------------------------------------

/// Parsing the `plugin` section.
pub open spec fn spec_parse_info(t: Seq<(Seq<char>, DocV)>) -> Result<InfoV, Seq<char>> {
    if field_str(t, "name"@) is None || field_str(t, "name"@)->0.len() == 0 {
        Err("plugin.name"@)
    } else if field_str(t, "version"@) is None || field_str(t, "version"@)->0.len() == 0 {
        Err("plugin.version"@)
    } else if field_str(t, "description"@) is None {
        Err("plugin.description"@)
    } else if !str_arr_field_ok(t, "authors"@) {
        Err("plugin.authors"@)
    } else if !lang_field_ok(t) {
        Err("plugin.language"@)
    } else if !opt_str_field_ok(t, "license"@) {
        Err("plugin.license"@)
    } else if !opt_str_field_ok(t, "repository"@) {
        Err("plugin.repository"@)
    } else if !opt_str_field_ok(t, "homepage"@) {
        Err("plugin.homepage"@)
    } else if !str_arr_field_ok(t, "keywords"@) {
        Err("plugin.keywords"@)
    } else {
        Ok(InfoV {
            name: field_str(t, "name"@)->0,
            version: field_str(t, "version"@)->0,
            description: field_str(t, "description"@)->0,
            authors: str_arr_field(t, "authors"@),
            language: lang_field(t),
            license: field_str(t, "license"@),
            repository: field_str(t, "repository"@),
            homepage: field_str(t, "homepage"@),
            keywords: str_arr_field(t, "keywords"@),
        })
    }
}

/// Parsing the `paii` section into its one field.
pub open spec fn spec_parse_paii(d: Option<DocV>) -> Result<Option<Seq<char>>, Seq<char>> {
    match d {
        None => Ok(None),
        Some(DocV::Table(t)) => if opt_str_field_ok(t, "core_version"@) {
            Ok(field_str(t, "core_version"@))
        } else {
            Err("paii.core_version"@)
        },
        Some(_) => Err("paii"@),
    }
}

/// Parsing one offered capability.
pub open spec fn spec_parse_provide(d: DocV) -> Option<ProvideV> {
    match d {
        DocV::Str(s) => Some(ProvideV::Simple(s)),
        DocV::Table(t) => if field_str(t, "contract"@) is Some && opt_str_field_ok(t, "service"@) {
            Some(ProvideV::Detailed {
                contract: field_str(t, "contract"@)->0,
                service: field_str(t, "service"@),
            })
        } else {
            None
        },
        _ => None,
    }
}

/// Parsing the entries of the `provides` section, in order.
pub open spec fn spec_parse_provides(e: Seq<(Seq<char>, DocV)>) -> Result<Seq<(Seq<char>, ProvideV)>, Seq<char>>
    decreases e.len(),
{
    if e.len() == 0 {
        Ok(Seq::empty())
    } else {
        match spec_parse_provides(e.drop_last()) {
            Err(x) => Err(x),
            Ok(rest) => match spec_parse_provide(e.last().1) {
                Some(p) => Ok(rest.push((e.last().0, p))),
                None => Err("provides."@ + e.last().0),
            },
        }
    }
}

/// The first rejected entry of the `provides` section names the failure.
pub proof fn lemma_parse_provides_err(e: Seq<(Seq<char>, DocV)>, i: int)
    requires
        0 <= i < e.len(),
        spec_parse_provides(e.subrange(0, i)) is Ok,
        spec_parse_provide(e[i].1) is None,
    ensures
        spec_parse_provides(e) == Err::<Seq<(Seq<char>, ProvideV)>, Seq<char>>("provides."@ + e[i].0),
    decreases e.len(),
{
    if i == e.len() - 1 {
        assert(e.drop_last() =~= e.subrange(0, i));
        assert(e.last() == e[i]);
    } else {
        assert(e.drop_last().subrange(0, i) =~= e.subrange(0, i));
        assert(e.drop_last()[i] == e[i]);
        lemma_parse_provides_err(e.drop_last(), i);
    }
}

/// Parsing one consumed capability.
pub open spec fn spec_parse_consume(d: DocV) -> Option<ConsumeV> {
    match d {
        DocV::Table(t) => if field_str(t, "contract"@) is Some && bool_field_ok(t, "optional"@)
            && opt_str_field_ok(t, "service"@) {
            Some(ConsumeV {
                contract: field_str(t, "contract"@)->0,
                optional: field_bool(t, "optional"@),
                service: field_str(t, "service"@),
            })
        } else {
            None
        },
        _ => None,
    }
}

/// Parsing the entries of the `consumes` section, in order.
pub open spec fn spec_parse_consumes(e: Seq<(Seq<char>, DocV)>) -> Result<Seq<(Seq<char>, ConsumeV)>, Seq<char>>
    decreases e.len(),
{
    if e.len() == 0 {
        Ok(Seq::empty())
    } else {
        match spec_parse_consumes(e.drop_last()) {
            Err(x) => Err(x),
            Ok(rest) => match spec_parse_consume(e.last().1) {
                Some(p) => Ok(rest.push((e.last().0, p))),
                None => Err("consumes."@ + e.last().0),
            },
        }
    }
}

/// The first rejected entry of the `consumes` section names the failure.
pub proof fn lemma_parse_consumes_err(e: Seq<(Seq<char>, DocV)>, i: int)
    requires
        0 <= i < e.len(),
        spec_parse_consumes(e.subrange(0, i)) is Ok,
        spec_parse_consume(e[i].1) is None,
    ensures
        spec_parse_consumes(e) == Err::<Seq<(Seq<char>, ConsumeV)>, Seq<char>>("consumes."@ + e[i].0),
    decreases e.len(),
{
    if i == e.len() - 1 {
        assert(e.drop_last() =~= e.subrange(0, i));
        assert(e.last() == e[i]);
    } else {
        assert(e.drop_last().subrange(0, i) =~= e.subrange(0, i));
        assert(e.drop_last()[i] == e[i]);
        lemma_parse_consumes_err(e.drop_last(), i);
    }
}

/// Parsing one configuration key.
pub open spec fn spec_parse_config_entry(d: DocV) -> Option<ConfigV> {
    match d {
        DocV::Table(t) => if field_str(t, "type"@) is Some && bool_field_ok(t, "required"@)
            && bool_field_ok(t, "secret"@) && opt_str_field_ok(t, "env"@) {
            Some(ConfigV {
                value_type: field_str(t, "type"@)->0,
                required: field_bool(t, "required"@),
                default: tbl_get(t, "default"@),
                env: field_str(t, "env"@),
                secret: field_bool(t, "secret"@),
            })
        } else {
            None
        },
        _ => None,
    }
}

/// Parsing the entries of the `config` section, in order.
pub open spec fn spec_parse_configs(e: Seq<(Seq<char>, DocV)>) -> Result<Seq<(Seq<char>, ConfigV)>, Seq<char>>
    decreases e.len(),
{
    if e.len() == 0 {
        Ok(Seq::empty())
    } else {
        match spec_parse_configs(e.drop_last()) {
            Err(x) => Err(x),
            Ok(rest) => match spec_parse_config_entry(e.last().1) {
                Some(p) => Ok(rest.push((e.last().0, p))),
                None => Err("config."@ + e.last().0),
            },
        }
    }
}

/// The first rejected entry of the `config` section names the failure.
pub proof fn lemma_parse_configs_err(e: Seq<(Seq<char>, DocV)>, i: int)
    requires
        0 <= i < e.len(),
        spec_parse_configs(e.subrange(0, i)) is Ok,
        spec_parse_config_entry(e[i].1) is None,
    ensures
        spec_parse_configs(e) == Err::<Seq<(Seq<char>, ConfigV)>, Seq<char>>("config."@ + e[i].0),
    decreases e.len(),
{
    if i == e.len() - 1 {
        assert(e.drop_last() =~= e.subrange(0, i));
        assert(e.last() == e[i]);
    } else {
        assert(e.drop_last().subrange(0, i) =~= e.subrange(0, i));
        assert(e.drop_last()[i] == e[i]);
        lemma_parse_configs_err(e.drop_last(), i);
    }
}

/// Parsing the `hooks` section: six optional booleans.
pub open spec fn spec_parse_hooks(d: Option<DocV>) -> Result<HooksSpec, Seq<char>> {
    match d {
        None => Ok(HooksSpec {
            pre_tool_use: false,
            post_tool_use: false,
            stop: false,
            session_start: false,
            session_end: false,
            subagent_stop: false,
        }),
        Some(DocV::Table(t)) => if !bool_field_ok(t, "pre_tool_use"@) {
            Err("hooks.pre_tool_use"@)
        } else if !bool_field_ok(t, "post_tool_use"@) {
            Err("hooks.post_tool_use"@)
        } else if !bool_field_ok(t, "stop"@) {
            Err("hooks.stop"@)
        } else if !bool_field_ok(t, "session_start"@) {
            Err("hooks.session_start"@)
        } else if !bool_field_ok(t, "session_end"@) {
            Err("hooks.session_end"@)
        } else if !bool_field_ok(t, "subagent_stop"@) {
            Err("hooks.subagent_stop"@)
        } else {
            Ok(HooksSpec {
                pre_tool_use: field_bool(t, "pre_tool_use"@),
                post_tool_use: field_bool(t, "post_tool_use"@),
                stop: field_bool(t, "stop"@),
                session_start: field_bool(t, "session_start"@),
                session_end: field_bool(t, "session_end"@),
                subagent_stop: field_bool(t, "subagent_stop"@),
            })
        },
        Some(_) => Err("hooks"@),
    }
}

/// The build-type field is well-formed when absent or naming a build type.
pub open spec fn build_type_field_ok(t: Seq<(Seq<char>, DocV)>) -> bool {
    match tbl_get(t, "type"@) {
        None => true,
        Some(DocV::Str(s)) => build_of_name(s) is Some,
        _ => false,
    }
}

/// The build type of the section; absent means the default.
pub open spec fn build_type_field(t: Seq<(Seq<char>, DocV)>) -> BuildType {
    match tbl_get(t, "type"@) {
        Some(DocV::Str(s)) => if build_of_name(s) is Some {
            build_of_name(s)->0
        } else {
            BuildType::Uv
        },
        _ => BuildType::Uv,
    }
}

/// Parsing the `build` section.
pub open spec fn spec_parse_build(d: Option<DocV>) -> Result<BuildV, Seq<char>> {
    match d {
        None => Ok(BuildV { build_type: BuildType::Uv, requirements: None, install_command: None, build_command: None }),
        Some(DocV::Table(t)) => if !build_type_field_ok(t) {
            Err("build.type"@)
        } else if !opt_str_field_ok(t, "requirements"@) {
            Err("build.requirements"@)
        } else if !opt_str_field_ok(t, "install_command"@) {
            Err("build.install_command"@)
        } else if !opt_str_field_ok(t, "build_command"@) {
            Err("build.build_command"@)
        } else {
            Ok(BuildV {
                build_type: build_type_field(t),
                requirements: field_str(t, "requirements"@),
                install_command: field_str(t, "install_command"@),
                build_command: field_str(t, "build_command"@),
            })
        },
        Some(_) => Err("build"@),
    }
}

/// A keyed-section value must be a table when present; absent means empty.
pub open spec fn section_entries(d: Option<DocV>) -> Option<Seq<(Seq<char>, DocV)>> {
    match d {
        None => Some(Seq::empty()),
        Some(DocV::Table(t)) => Some(t),
        Some(_) => None,
    }
}

/// Parsing a whole descriptor document.  Unknown top-level sections are
/// ignored.
pub open spec fn spec_parse_manifest(d: DocV) -> Result<ManifestV, Seq<char>> {
    match d {
        DocV::Table(t) => {
            match tbl_get(t, "plugin"@) {
                Some(DocV::Table(p)) => {
                    match spec_parse_info(p) {
                        Err(x) => Err(x),
                        Ok(info) => match spec_parse_paii(tbl_get(t, "paii"@)) {
                            Err(x) => Err(x),
                            Ok(core_version) => match section_entries(tbl_get(t, "provides"@)) {
                                None => Err("provides"@),
                                Some(pe) => match spec_parse_provides(pe) {
                                    Err(x) => Err(x),
                                    Ok(provides) => match section_entries(tbl_get(t, "consumes"@)) {
                                        None => Err("consumes"@),
                                        Some(ce) => match spec_parse_consumes(ce) {
                                            Err(x) => Err(x),
                                            Ok(consumes) => match section_entries(tbl_get(t, "config"@)) {
                                                None => Err("config"@),
                                                Some(ke) => match spec_parse_configs(ke) {
                                                    Err(x) => Err(x),
                                                    Ok(config) => match spec_parse_hooks(tbl_get(t, "hooks"@)) {
                                                        Err(x) => Err(x),
                                                        Ok(hooks) => match spec_parse_build(tbl_get(t, "build"@)) {
                                                            Err(x) => Err(x),
                                                            Ok(build) => Ok(ManifestV {
                                                                plugin: info,
                                                                core_version,
                                                                provides,
                                                                consumes,
                                                                config,
                                                                hooks,
                                                                build,
                                                            }),
                                                        },
                                                    },
                                                },
                                            },
                                        },
                                    },
                                },
                            },
                        },
                    }
                },
                _ => Err("plugin"@),
            }
        },
        _ => Err("document"@),
    }
}

// ---------------------------------------------------------------------------
// Executable field readers
// ---------------------------------------------------------------------------

/// A parse failure naming the offending field.
fn fail(field: &str) -> (r: ParseFailure)
    ensures
        r@ == field@,
{
    ParseFailure { field: String::from_str(field) }
}

/// Reads a required string field.
pub(crate) fn read_str_field(t: &Vec<(String, DocValue)>, k: &str) -> (r: Option<String>)
    ensures
        match r {
            Some(s) => field_str(ents_view(t@), k@) == Some(s@),
            None => field_str(ents_view(t@), k@) is None,
        },
{
    match table_get(t, k) {
        Some(v) => match v {
            DocValue::Str(s) => Some(s.clone()),
            _ => None,
        },
        None => None,
    }
}

/// Reads an optional string field; rejects a present non-string.
pub(crate) fn read_opt_str_field(t: &Vec<(String, DocValue)>, k: &str) -> (r: Result<Option<String>, ()>)
    ensures
        match r {
            Ok(o) => opt_str_field_ok(ents_view(t@), k@) && osv(o) == field_str(ents_view(t@), k@),
            Err(_) => !opt_str_field_ok(ents_view(t@), k@),
        },
{
    match table_get(t, k) {
        None => Ok(None),
        Some(v) => match v {
            DocValue::Str(s) => Ok(Some(s.clone())),
            _ => Err(()),
        },
    }
}

/// Reads an optional boolean field; absent means `false`.
pub(crate) fn read_bool_field(t: &Vec<(String, DocValue)>, k: &str) -> (r: Result<bool, ()>)
    ensures
        match r {
            Ok(b) => bool_field_ok(ents_view(t@), k@) && b == field_bool(ents_view(t@), k@),
            Err(_) => !bool_field_ok(ents_view(t@), k@),
        },
{
    match table_get(t, k) {
        None => Ok(false),
        Some(v) => match v {
            DocValue::Bool(b) => Ok(*b),
            _ => Err(()),
        },
    }
}

/// The strings of an array node; `None` when an element is no string.
fn parse_str_arr(a: &Vec<DocValue>) -> (r: Option<Vec<String>>)
    ensures
        match r {
            Some(v) => all_strs(arr_view(a@)) && strs_view(v@) == strs_of(arr_view(a@)),
            None => !all_strs(arr_view(a@)),
        },
{
    proof {
        lemma_arr_view(a@);
    }
    let n = a.len();
    let mut out: Vec<String> = Vec::new();
    let mut i: usize = 0;
    while i < n
        invariant
            n == a@.len(),
            i <= n,
            out@.len() == i,
            arr_view(a@).len() == n,
            forall|j: int| 0 <= j < n ==> arr_view(a@)[j] == dv(a@[j]),
            forall|j: int| 0 <= j < i ==> arr_view(a@)[j] is Str,
            forall|j: int| 0 <= j < i ==> out@[j]@ == arr_view(a@)[j]->Str_0,
        decreases n - i,
    {
        match &a[i] {
            DocValue::Str(s) => {
                out.push(s.clone());
            },
            _ => {
                assert(!(arr_view(a@)[i as int] is Str));
                return None;
            },
        }
        i = i + 1;
    }
    proof {
        assert(strs_view(out@) =~= strs_of(arr_view(a@)));
    }
    Some(out)
}

/// Reads an optional string-array field; absent means empty.
pub(crate) fn read_str_arr_field(t: &Vec<(String, DocValue)>, k: &str) -> (r: Result<Vec<String>, ()>)
    ensures
        match r {
            Ok(v) => str_arr_field_ok(ents_view(t@), k@) && strs_view(v@) == str_arr_field(ents_view(t@), k@),
            Err(_) => !str_arr_field_ok(ents_view(t@), k@),
        },
{
    match table_get(t, k) {
        None => {
            let v: Vec<String> = Vec::new();
            proof {
                assert(strs_view(v@) =~= Seq::<Seq<char>>::empty());
            }
            Ok(v)
        },
        Some(v) => match v {
            DocValue::Arr(a) => match parse_str_arr(a) {
                Some(vs) => Ok(vs),
                None => Err(()),
            },
            _ => Err(()),
        },
    }
}

// ---------------------------------------------------------------------------
// Executable parsing, section by section
// ---------------------------------------------------------------------------

/// Parses the `plugin` section.
fn parse_info(t: &Vec<(String, DocValue)>) -> (r: Result<PluginInfo, ParseFailure>)
    ensures
        match r {
            Ok(info) => spec_parse_info(ents_view(t@)) == Ok::<InfoV, Seq<char>>(info@),
            Err(f) => spec_parse_info(ents_view(t@)) == Err::<InfoV, Seq<char>>(f@),
        },
{
    let ghost ev = ents_view(t@);
    let name = match read_str_field(t, "name") {
        Some(s) => s,
        None => {
            return Err(fail("plugin.name"));
        },
    };
    if name.as_str().unicode_len() == 0 {
        return Err(fail("plugin.name"));
    }
    let version = match read_str_field(t, "version") {
        Some(s) => s,
        None => {
            return Err(fail("plugin.version"));
        },
    };
    if version.as_str().unicode_len() == 0 {
        return Err(fail("plugin.version"));
    }
    let description = match read_str_field(t, "description") {
        Some(s) => s,
        None => {
            return Err(fail("plugin.description"));
        },
    };
    let authors = match read_str_arr_field(t, "authors") {
        Ok(v) => v,
        Err(_) => {
            return Err(fail("plugin.authors"));
        },
    };
    let language = match table_get(t, "language") {
        None => PluginLanguage::Python,
        Some(v) => match v {
            DocValue::Str(s) => {
                if str_eq(s.as_str(), "python") {
                    PluginLanguage::Python
                } else if str_eq(s.as_str(), "rust") {
                    PluginLanguage::Rust
                } else if str_eq(s.as_str(), "mixed") {
                    PluginLanguage::Mixed
                } else {
                    return Err(fail("plugin.language"));
                }
            },
            _ => {
                return Err(fail("plugin.language"));
            },
        },
    };
    let license = match read_opt_str_field(t, "license") {
        Ok(o) => o,
        Err(_) => {
            return Err(fail("plugin.license"));
        },
    };
    let repository = match read_opt_str_field(t, "repository") {
        Ok(o) => o,
        Err(_) => {
            return Err(fail("plugin.repository"));
        },
    };
    let homepage = match read_opt_str_field(t, "homepage") {
        Ok(o) => o,
        Err(_) => {
            return Err(fail("plugin.homepage"));
        },
    };
    let keywords = match read_str_arr_field(t, "keywords") {
        Ok(v) => v,
        Err(_) => {
            return Err(fail("plugin.keywords"));
        },
    };
    Ok(PluginInfo { name, version, description, authors, language, license, repository, homepage, keywords })
}

/// Parses one offered capability.
fn parse_provide(d: &DocValue) -> (r: Option<ProvideSpec>)
    ensures
        match r {
            Some(p) => spec_parse_provide(d@) == Some(p@),
            None => spec_parse_provide(d@) is None,
        },
{
    match d {
        DocValue::Str(s) => Some(ProvideSpec::Simple(s.clone())),
        DocValue::Table(t) => {
            let contract = match read_str_field(t, "contract") {
                Some(s) => s,
                None => {
                    return None;
                },
            };
            let service = match read_opt_str_field(t, "service") {
                Ok(o) => o,
                Err(_) => {
                    return None;
                },
            };
            Some(ProvideSpec::Detailed { contract, service })
        },
        _ => None,
    }
}

/// Parses one consumed capability.
fn parse_consume(d: &DocValue) -> (r: Option<ConsumeSpec>)
    ensures
        match r {
            Some(p) => spec_parse_consume(d@) == Some(p@),
            None => spec_parse_consume(d@) is None,
        },
{
    match d {
        DocValue::Table(t) => {
            let contract = match read_str_field(t, "contract") {
                Some(s) => s,
                None => {
                    return None;
                },
            };
            let optional = match read_bool_field(t, "optional") {
                Ok(b) => b,
                Err(_) => {
                    return None;
                },
            };
            let service = match read_opt_str_field(t, "service") {
                Ok(o) => o,
                Err(_) => {
                    return None;
                },
            };
            Some(ConsumeSpec { contract, optional, service })
        },
        _ => None,
    }
}

/// Parses one configuration key.
fn parse_config_entry(d: &DocValue) -> (r: Option<ConfigSpec>)
    ensures
        match r {
            Some(p) => spec_parse_config_entry(d@) == Some(p@),
            None => spec_parse_config_entry(d@) is None,
        },
{
    match d {
        DocValue::Table(t) => {
            let value_type = match read_str_field(t, "type") {
                Some(s) => s,
                None => {
                    return None;
                },
            };
            let required = match read_bool_field(t, "required") {
                Ok(b) => b,
                Err(_) => {
                    return None;
                },
            };
            let secret = match read_bool_field(t, "secret") {
                Ok(b) => b,
                Err(_) => {
                    return None;
                },
            };
            let env = match read_opt_str_field(t, "env") {
                Ok(o) => o,
                Err(_) => {
                    return None;
                },
            };
            let default = match table_get(t, "default") {
                Some(v) => Some(v.clone_value()),
                None => None,
            };
            Some(ConfigSpec { value_type, required, default, env, secret })
        },
        _ => None,
    }
}

/// Parses the entries of the `provides` section.
fn parse_provides_entries(e: &Vec<(String, DocValue)>) -> (r: Result<Vec<(String, ProvideSpec)>, ParseFailure>)
    ensures
        match r {
            Ok(v) => spec_parse_provides(ents_view(e@)) == Ok::<Seq<(Seq<char>, ProvideV)>, Seq<char>>(
                provides_pairs(v@),
            ),
            Err(f) => spec_parse_provides(ents_view(e@)) == Err::<Seq<(Seq<char>, ProvideV)>, Seq<char>>(f@),
        },
{
    let ghost ev = ents_view(e@);
    proof {
        lemma_ents_view(e@);
    }
    let n = e.len();
    let mut out: Vec<(String, ProvideSpec)> = Vec::new();
    let mut i: usize = 0;
    proof {
        assert(ev.subrange(0, 0) =~= Seq::empty());
        assert(provides_pairs(out@) =~= Seq::empty());
    }
    while i < n
        invariant
            n == e@.len(),
            i <= n,
            out@.len() == i,
            ev == ents_view(e@),
            ev.len() == n,
            forall|j: int| 0 <= j < n ==> ev[j] == (e@[j].0@, dv(e@[j].1)),
            spec_parse_provides(ev.subrange(0, i as int)) == Ok::<Seq<(Seq<char>, ProvideV)>, Seq<char>>(
                provides_pairs(out@),
            ),
        decreases n - i,
    {
        let ghost pre = ev.subrange(0, i as int);
        match parse_provide(&e[i].1) {
            Some(p) => {
                let ghost pv = p@;
                let ghost prev = out@;
                out.push((e[i].0.clone(), p));
                proof {
                    let post = ev.subrange(0, i + 1 as int);
                    assert(post.drop_last() =~= pre);
                    assert(post.last() == ev[i as int]);
                    assert(provides_pairs(out@) =~= provides_pairs(prev).push((e@[i as int].0@, pv)));
                }
            },
            None => {
                proof {
                    lemma_parse_provides_err(ev, i as int);
                }
                return Err(ParseFailure { field: String::from_str("provides.").concat(e[i].0.as_str()) });
            },
        }
        i = i + 1;
    }
    proof {
        assert(ev.subrange(0, n as int) =~= ev);
    }
    Ok(out)
}

/// Parses the entries of the `consumes` section.
fn parse_consumes_entries(e: &Vec<(String, DocValue)>) -> (r: Result<Vec<(String, ConsumeSpec)>, ParseFailure>)
    ensures
        match r {
            Ok(v) => spec_parse_consumes(ents_view(e@)) == Ok::<Seq<(Seq<char>, ConsumeV)>, Seq<char>>(
                consumes_pairs(v@),
            ),
            Err(f) => spec_parse_consumes(ents_view(e@)) == Err::<Seq<(Seq<char>, ConsumeV)>, Seq<char>>(f@),
        },
{
    let ghost ev = ents_view(e@);
    proof {
        lemma_ents_view(e@);
    }
    let n = e.len();
    let mut out: Vec<(String, ConsumeSpec)> = Vec::new();
    let mut i: usize = 0;
    proof {
        assert(ev.subrange(0, 0) =~= Seq::empty());
        assert(consumes_pairs(out@) =~= Seq::empty());
    }
    while i < n
        invariant
            n == e@.len(),
            i <= n,
            out@.len() == i,
            ev == ents_view(e@),
            ev.len() == n,
            forall|j: int| 0 <= j < n ==> ev[j] == (e@[j].0@, dv(e@[j].1)),
            spec_parse_consumes(ev.subrange(0, i as int)) == Ok::<Seq<(Seq<char>, ConsumeV)>, Seq<char>>(
                consumes_pairs(out@),
            ),
        decreases n - i,
    {
        let ghost pre = ev.subrange(0, i as int);
        match parse_consume(&e[i].1) {
            Some(p) => {
                let ghost pv = p@;
                let ghost prev = out@;
                out.push((e[i].0.clone(), p));
                proof {
                    let post = ev.subrange(0, i + 1 as int);
                    assert(post.drop_last() =~= pre);
                    assert(post.last() == ev[i as int]);
                    assert(consumes_pairs(out@) =~= consumes_pairs(prev).push((e@[i as int].0@, pv)));
                }
            },
            None => {
                proof {
                    lemma_parse_consumes_err(ev, i as int);
                }
                return Err(ParseFailure { field: String::from_str("consumes.").concat(e[i].0.as_str()) });
            },
        }
        i = i + 1;
    }
    proof {
        assert(ev.subrange(0, n as int) =~= ev);
    }
    Ok(out)
}

/// Parses the entries of the `config` section.
fn parse_configs_entries(e: &Vec<(String, DocValue)>) -> (r: Result<Vec<(String, ConfigSpec)>, ParseFailure>)
    ensures
        match r {
            Ok(v) => spec_parse_configs(ents_view(e@)) == Ok::<Seq<(Seq<char>, ConfigV)>, Seq<char>>(
                config_pairs(v@),
            ),
            Err(f) => spec_parse_configs(ents_view(e@)) == Err::<Seq<(Seq<char>, ConfigV)>, Seq<char>>(f@),
        },
{
    let ghost ev = ents_view(e@);
    proof {
        lemma_ents_view(e@);
    }
    let n = e.len();
    let mut out: Vec<(String, ConfigSpec)> = Vec::new();
    let mut i: usize = 0;
    proof {
        assert(ev.subrange(0, 0) =~= Seq::empty());
        assert(config_pairs(out@) =~= Seq::empty());
    }
    while i < n
        invariant
            n == e@.len(),
            i <= n,
            out@.len() == i,
            ev == ents_view(e@),
            ev.len() == n,
            forall|j: int| 0 <= j < n ==> ev[j] == (e@[j].0@, dv(e@[j].1)),
            spec_parse_configs(ev.subrange(0, i as int)) == Ok::<Seq<(Seq<char>, ConfigV)>, Seq<char>>(
                config_pairs(out@),
            ),
        decreases n - i,
    {
        let ghost pre = ev.subrange(0, i as int);
        match parse_config_entry(&e[i].1) {
            Some(p) => {
                let ghost pv = p@;
                let ghost prev = out@;
                out.push((e[i].0.clone(), p));
                proof {
                    let post = ev.subrange(0, i + 1 as int);
                    assert(post.drop_last() =~= pre);
                    assert(post.last() == ev[i as int]);
                    assert(config_pairs(out@) =~= config_pairs(prev).push((e@[i as int].0@, pv)));
                }
            },
            None => {
                proof {
                    lemma_parse_configs_err(ev, i as int);
                }
                return Err(ParseFailure { field: String::from_str("config.").concat(e[i].0.as_str()) });
            },
        }
        i = i + 1;
    }
    proof {
        assert(ev.subrange(0, n as int) =~= ev);
    }
    Ok(out)
}

/// Parses a present `hooks` table.
fn parse_hooks_tbl(t: &Vec<(String, DocValue)>) -> (r: Result<HooksSpec, ParseFailure>)
    ensures
        match r {
            Ok(h) => spec_parse_hooks(Some(DocV::Table(ents_view(t@)))) == Ok::<HooksSpec, Seq<char>>(h),
            Err(f) => spec_parse_hooks(Some(DocV::Table(ents_view(t@)))) == Err::<HooksSpec, Seq<char>>(f@),
        },
{
    let pre_tool_use = match read_bool_field(t, "pre_tool_use") {
        Ok(b) => b,
        Err(_) => {
            return Err(fail("hooks.pre_tool_use"));
        },
    };
    let post_tool_use = match read_bool_field(t, "post_tool_use") {
        Ok(b) => b,
        Err(_) => {
            return Err(fail("hooks.post_tool_use"));
        },
    };
    let stop = match read_bool_field(t, "stop") {
        Ok(b) => b,
        Err(_) => {
            return Err(fail("hooks.stop"));
        },
    };
    let session_start = match read_bool_field(t, "session_start") {
        Ok(b) => b,
        Err(_) => {
            return Err(fail("hooks.session_start"));
        },
    };
    let session_end = match read_bool_field(t, "session_end") {
        Ok(b) => b,
        Err(_) => {
            return Err(fail("hooks.session_end"));
        },
    };
    let subagent_stop = match read_bool_field(t, "subagent_stop") {
        Ok(b) => b,
        Err(_) => {
            return Err(fail("hooks.subagent_stop"));
        },
    };
    Ok(HooksSpec { pre_tool_use, post_tool_use, stop, session_start, session_end, subagent_stop })
}

/// Parses a present `build` table.
fn parse_build_tbl(t: &Vec<(String, DocValue)>) -> (r: Result<BuildSpec, ParseFailure>)
    ensures
        match r {
            Ok(b) => spec_parse_build(Some(DocV::Table(ents_view(t@)))) == Ok::<BuildV, Seq<char>>(b@),
            Err(f) => spec_parse_build(Some(DocV::Table(ents_view(t@)))) == Err::<BuildV, Seq<char>>(f@),
        },
{
    let build_type = match table_get(t, "type") {
        None => BuildType::Uv,
        Some(v) => match v {
            DocValue::Str(s) => {
                if str_eq(s.as_str(), "uv") {
                    BuildType::Uv
                } else if str_eq(s.as_str(), "cargo") {
                    BuildType::Cargo
                } else if str_eq(s.as_str(), "custom") {
                    BuildType::Custom
                } else {
                    return Err(fail("build.type"));
                }
            },
            _ => {
                return Err(fail("build.type"));
            },
        },
    };
    let requirements = match read_opt_str_field(t, "requirements") {
        Ok(o) => o,
        Err(_) => {
            return Err(fail("build.requirements"));
        },
    };
    let install_command = match read_opt_str_field(t, "install_command") {
        Ok(o) => o,
        Err(_) => {
            return Err(fail("build.install_command"));
        },
    };
    let build_command = match read_opt_str_field(t, "build_command") {
        Ok(o) => o,
        Err(_) => {
            return Err(fail("build.build_command"));
        },
    };
    Ok(BuildSpec { build_type, requirements, install_command, build_command })
}

/// Parses a whole descriptor document.  Unknown top-level sections are
/// accepted and ignored.
pub fn parse_doc(d: &DocValue) -> (r: Result<PluginManifest, ParseFailure>)
    ensures
        match r {
            Ok(m) => spec_parse_manifest(d@) == Ok::<ManifestV, Seq<char>>(m@),
            Err(f) => spec_parse_manifest(d@) == Err::<ManifestV, Seq<char>>(f@),
        },
{
    let t = match d {
        DocValue::Table(t) => t,
        _ => {
            return Err(fail("document"));
        },
    };
    let plugin_tbl = match table_get(t, "plugin") {
        Some(v) => match v {
            DocValue::Table(p) => p,
            _ => {
                return Err(fail("plugin"));
            },
        },
        None => {
            return Err(fail("plugin"));
        },
    };
    let info = match parse_info(plugin_tbl) {
        Ok(i) => i,
        Err(f) => {
            return Err(f);
        },
    };
    let core_version = match table_get(t, "paii") {
        None => None,
        Some(v) => match v {
            DocValue::Table(pt) => match read_opt_str_field(pt, "core_version") {
                Ok(o) => o,
                Err(_) => {
                    return Err(fail("paii.core_version"));
                },
            },
            _ => {
                return Err(fail("paii"));
            },
        },
    };
    let provides = match table_get(t, "provides") {
        None => {
            let v: Vec<(String, ProvideSpec)> = Vec::new();
            proof {
                assert(provides_pairs(v@) =~= Seq::empty());
            }
            v
        },
        Some(v) => match v {
            DocValue::Table(e) => match parse_provides_entries(e) {
                Ok(v) => v,
                Err(f) => {
                    return Err(f);
                },
            },
            _ => {
                return Err(fail("provides"));
            },
        },
    };
    let consumes = match table_get(t, "consumes") {
        None => {
            let v: Vec<(String, ConsumeSpec)> = Vec::new();
            proof {
                assert(consumes_pairs(v@) =~= Seq::empty());
            }
            v
        },
        Some(v) => match v {
            DocValue::Table(e) => match parse_consumes_entries(e) {
                Ok(v) => v,
                Err(f) => {
                    return Err(f);
                },
            },
            _ => {
                return Err(fail("consumes"));
            },
        },
    };
    let config = match table_get(t, "config") {
        None => {
            let v: Vec<(String, ConfigSpec)> = Vec::new();
            proof {
                assert(config_pairs(v@) =~= Seq::empty());
            }
            v
        },
        Some(v) => match v {
            DocValue::Table(e) => match parse_configs_entries(e) {
                Ok(v) => v,
                Err(f) => {
                    return Err(f);
                },
            },
            _ => {
                return Err(fail("config"));
            },
        },
    };
    let hooks = match table_get(t, "hooks") {
        None => HooksSpec::default(),
        Some(v) => match v {
            DocValue::Table(ht) => match parse_hooks_tbl(ht) {
                Ok(h) => h,
                Err(f) => {
                    return Err(f);
                },
            },
            _ => {
                return Err(fail("hooks"));
            },
        },
    };
    let build = match table_get(t, "build") {
        None => BuildSpec {
            build_type: BuildType::Uv,
            requirements: None,
            install_command: None,
            build_command: None,
        },
        Some(v) => match v {
            DocValue::Table(bt) => match parse_build_tbl(bt) {
                Ok(b) => b,
                Err(f) => {
                    return Err(f);
                },
            },
            _ => {
                return Err(fail("build"));
            },
        },
    };
    Ok(PluginManifest {
        plugin: info,
        paii: PaiiRequirements { core_version },
        provides,
        consumes,
        config,
        hooks,
        build,
    })
}

impl PluginManifest {
    /// Parses a descriptor from document text.
    pub fn from_str(content: &str) -> (r: Result<PluginManifest, CoreError>)
        ensures
            match doc_of_text(content@) {
                None => r matches Err(e) && e@ == (crate::errors::ErrorV::InvalidInput {
                    context: "manifest document"@,
                }),
                Some(dm) => match spec_parse_manifest(dm) {
                    Ok(m) => r matches Ok(pm) && pm@ == m,
                    Err(f) => r matches Err(e) && e@ == (crate::errors::ErrorV::InvalidInput { context: f }),
                },
            },
    {
        let d = match parse_text(content) {
            Some(d) => d,
            None => {
                return Err(CoreError::InvalidInput { context: String::from_str("manifest document") });
            },
        };
        match parse_doc(&d) {
            Ok(m) => Ok(m),
            Err(f) => Err(CoreError::InvalidInput { context: f.field }),
        }
    }
}

// ---------------------------------------------------------------------------
// Spec-level serialization
// ---------------------------------------------------------------------------

/// An optional string field serializes to one entry or to nothing.
pub open spec fn opt_str_entry(k: Seq<char>, o: Option<Seq<char>>) -> Seq<(Seq<char>, DocV)> {
    match o {
        Some(s) => seq![(k, DocV::Str(s))],
        None => Seq::empty(),
    }
}

/// Strings as an array of string nodes.
pub open spec fn strs_doc(v: Seq<Seq<char>>) -> Seq<DocV> {
    v.map_values(|s: Seq<char>| DocV::Str(s))
}

/// The entries of the serialized `plugin` section.
pub open spec fn spec_info_entries(i: InfoV) -> Seq<(Seq<char>, DocV)> {
    seq![
        ("name"@, DocV::Str(i.name)),
        ("version"@, DocV::Str(i.version)),
        ("description"@, DocV::Str(i.description)),
        ("authors"@, DocV::Arr(strs_doc(i.authors))),
        ("language"@, DocV::Str(lang_name(i.language))),
        ("keywords"@, DocV::Arr(strs_doc(i.keywords))),
    ] + opt_str_entry("license"@, i.license) + opt_str_entry("repository"@, i.repository)
        + opt_str_entry("homepage"@, i.homepage)
}

/// The serialized form of one offered capability.
pub open spec fn spec_provide_doc(p: ProvideV) -> DocV {
    match p {
        ProvideV::Simple(s) => DocV::Str(s),
        ProvideV::Detailed { contract, service } => DocV::Table(
            seq![("contract"@, DocV::Str(contract))] + opt_str_entry("service"@, service),
        ),
    }
}

/// The serialized form of one consumed capability.
pub open spec fn spec_consume_doc(c: ConsumeV) -> DocV {
    DocV::Table(
        seq![("contract"@, DocV::Str(c.contract)), ("optional"@, DocV::Bool(c.optional))]
            + opt_str_entry("service"@, c.service),
    )
}

/// The serialized form of one configuration key.
pub open spec fn spec_config_doc(c: ConfigV) -> DocV {
    DocV::Table(
        seq![
            ("type"@, DocV::Str(c.value_type)),
            ("required"@, DocV::Bool(c.required)),
            ("secret"@, DocV::Bool(c.secret)),
        ] + opt_str_entry("env"@, c.env) + (match c.default {
            Some(d) => seq![("default"@, d)],
            None => Seq::empty(),
        }),
    )
}

/// The serialized entries of the `provides` section.
pub open spec fn provides_doc(v: Seq<(Seq<char>, ProvideV)>) -> Seq<(Seq<char>, DocV)> {
    Seq::new(v.len(), |i: int| (v[i].0, spec_provide_doc(v[i].1)))
}

/// The serialized entries of the `consumes` section.
pub open spec fn consumes_doc(v: Seq<(Seq<char>, ConsumeV)>) -> Seq<(Seq<char>, DocV)> {
    Seq::new(v.len(), |i: int| (v[i].0, spec_consume_doc(v[i].1)))
}

/// The serialized entries of the `config` section.
pub open spec fn configs_doc(v: Seq<(Seq<char>, ConfigV)>) -> Seq<(Seq<char>, DocV)> {
    Seq::new(v.len(), |i: int| (v[i].0, spec_config_doc(v[i].1)))
}

/// The serialized entries of the `hooks` section.
pub open spec fn spec_hooks_entries(h: HooksSpec) -> Seq<(Seq<char>, DocV)> {
    seq![
        ("pre_tool_use"@, DocV::Bool(h.pre_tool_use)),
        ("post_tool_use"@, DocV::Bool(h.post_tool_use)),
        ("stop"@, DocV::Bool(h.stop)),
        ("session_start"@, DocV::Bool(h.session_start)),
        ("session_end"@, DocV::Bool(h.session_end)),
        ("subagent_stop"@, DocV::Bool(h.subagent_stop)),
    ]
}

/// The serialized entries of the `build` section.
pub open spec fn spec_build_entries(b: BuildV) -> Seq<(Seq<char>, DocV)> {
    seq![("type"@, DocV::Str(build_name(b.build_type)))] + opt_str_entry("requirements"@, b.requirements)
        + opt_str_entry("install_command"@, b.install_command) + opt_str_entry(
        "build_command"@,
        b.build_command,
    )
}

/// The serialized descriptor document of a manifest.
pub open spec fn spec_manifest_doc(m: ManifestV) -> DocV {
    DocV::Table(
        seq![
            ("plugin"@, DocV::Table(spec_info_entries(m.plugin))),
            ("paii"@, DocV::Table(opt_str_entry("core_version"@, m.core_version))),
            ("provides"@, DocV::Table(provides_doc(m.provides))),
            ("consumes"@, DocV::Table(consumes_doc(m.consumes))),
            ("config"@, DocV::Table(configs_doc(m.config))),
            ("hooks"@, DocV::Table(spec_hooks_entries(m.hooks))),
            ("build"@, DocV::Table(spec_build_entries(m.build))),
        ],
    )
}

// ---------------------------------------------------------------------------
// Executable serialization
// ---------------------------------------------------------------------------

/// Appends the entry of an optional string field, when present.
fn push_opt_str(out: &mut Vec<(String, DocValue)>, k: &str, o: &Option<String>)
    ensures
        ents_view(final(out)@) == ents_view(old(out)@) + opt_str_entry(k@, osv(*o)),
{
    proof {
        lemma_ents_view(out@);
    }
    match o {
        Some(s) => {
            out.push((String::from_str(k), DocValue::Str(s.clone())));
            proof {
                lemma_ents_view(out@);
                assert(ents_view(out@) =~= ents_view(old(out)@) + opt_str_entry(k@, osv(*o)));
            }
        },
        None => {
            proof {
                assert(ents_view(out@) =~= ents_view(out@) + opt_str_entry(k@, osv(*o)));
            }
        },
    }
}

/// Strings as an array of string nodes.
fn strs_to_docs(v: &Vec<String>) -> (out: Vec<DocValue>)
    ensures
        arr_view(out@) == strs_doc(strs_view(v@)),
{
    let n = v.len();
    let mut out: Vec<DocValue> = Vec::new();
    let mut i: usize = 0;
    while i < n
        invariant
            n == v@.len(),
            i <= n,
            out@.len() == i,
            forall|j: int| 0 <= j < i ==> out@[j] == DocValue::Str(v@[j]),
        decreases n - i,
    {
        out.push(DocValue::Str(v[i].clone()));
        i = i + 1;
    }
    proof {
        lemma_arr_view(out@);
        assert(arr_view(out@) =~= strs_doc(strs_view(v@)));
    }
    out
}

/// The name of a language, as a string.
fn lang_to_string(l: PluginLanguage) -> (r: String)
    ensures
        r@ == lang_name(l),
{
    match l {
        PluginLanguage::Python => String::from_str("python"),
        PluginLanguage::Rust => String::from_str("rust"),
        PluginLanguage::Mixed => String::from_str("mixed"),
    }
}

/// The name of a build type, as a string.
fn build_to_string(b: BuildType) -> (r: String)
    ensures
        r@ == build_name(b),
{
    match b {
        BuildType::Uv => String::from_str("uv"),
        BuildType::Cargo => String::from_str("cargo"),
        BuildType::Custom => String::from_str("custom"),
    }
}

/// The entries of the serialized `plugin` section.
fn info_entries(i: &PluginInfo) -> (out: Vec<(String, DocValue)>)
    ensures
        ents_view(out@) == spec_info_entries(i@),
{
    let mut out: Vec<(String, DocValue)> = Vec::new();
    out.push((String::from_str("name"), DocValue::Str(i.name.clone())));
    out.push((String::from_str("version"), DocValue::Str(i.version.clone())));
    out.push((String::from_str("description"), DocValue::Str(i.description.clone())));
    out.push((String::from_str("authors"), DocValue::Arr(strs_to_docs(&i.authors))));
    out.push((String::from_str("language"), DocValue::Str(lang_to_string(i.language))));
    out.push((String::from_str("keywords"), DocValue::Arr(strs_to_docs(&i.keywords))));
    proof {
        lemma_ents_view(out@);
    }
    let ghost base = ents_view(out@);
    proof {
        assert(base =~= seq![
            ("name"@, DocV::Str(i.name@)),
            ("version"@, DocV::Str(i.version@)),
            ("description"@, DocV::Str(i.description@)),
            ("authors"@, DocV::Arr(strs_doc(strs_view(i.authors@)))),
            ("language"@, DocV::Str(lang_name(i.language))),
            ("keywords"@, DocV::Arr(strs_doc(strs_view(i.keywords@)))),
        ]);
    }
    push_opt_str(&mut out, "license", &i.license);
    push_opt_str(&mut out, "repository", &i.repository);
    push_opt_str(&mut out, "homepage", &i.homepage);
    proof {
        assert(ents_view(out@) == spec_info_entries(i@));
    }
    out
}

/// The serialized form of one offered capability.
fn provide_to_doc(p: &ProvideSpec) -> (r: DocValue)
    ensures
        r@ == spec_provide_doc(p@),
{
    match p {
        ProvideSpec::Simple(s) => DocValue::Str(s.clone()),
        ProvideSpec::Detailed { contract, service } => {
            let mut out: Vec<(String, DocValue)> = Vec::new();
            out.push((String::from_str("contract"), DocValue::Str(contract.clone())));
            proof {
                lemma_ents_view(out@);
            }
            let ghost base = ents_view(out@);
            proof {
                assert(base =~= seq![("contract"@, DocV::Str(contract@))]);
            }
            push_opt_str(&mut out, "service", service);
            DocValue::Table(out)
        },
    }
}

/// The serialized form of one consumed capability.
fn consume_to_doc(c: &ConsumeSpec) -> (r: DocValue)
    ensures
        r@ == spec_consume_doc(c@),
{
    let mut out: Vec<(String, DocValue)> = Vec::new();
    out.push((String::from_str("contract"), DocValue::Str(c.contract.clone())));
    out.push((String::from_str("optional"), DocValue::Bool(c.optional)));
    proof {
        lemma_ents_view(out@);
    }
    let ghost base = ents_view(out@);
    proof {
        assert(base =~= seq![("contract"@, DocV::Str(c.contract@)), ("optional"@, DocV::Bool(c.optional))]);
    }
    push_opt_str(&mut out, "service", &c.service);
    DocValue::Table(out)
}

/// The serialized form of one configuration key.
fn config_to_doc(c: &ConfigSpec) -> (r: DocValue)
    ensures
        r@ == spec_config_doc(c@),
{
    let mut out: Vec<(String, DocValue)> = Vec::new();
    out.push((String::from_str("type"), DocValue::Str(c.value_type.clone())));
    out.push((String::from_str("required"), DocValue::Bool(c.required)));
    out.push((String::from_str("secret"), DocValue::Bool(c.secret)));
    proof {
        lemma_ents_view(out@);
    }
    let ghost base = ents_view(out@);
    proof {
        assert(base =~= seq![
            ("type"@, DocV::Str(c.value_type@)),
            ("required"@, DocV::Bool(c.required)),
            ("secret"@, DocV::Bool(c.secret)),
        ]);
    }
    push_opt_str(&mut out, "env", &c.env);
    proof {
        lemma_ents_view(out@);
    }
    let ghost mid = ents_view(out@);
    match &c.default {
        Some(d) => {
            out.push((String::from_str("default"), d.clone_value()));
            proof {
                lemma_ents_view(out@);
                assert(ents_view(out@) =~= mid + seq![("default"@, dv(*d))]);
            }
        },
        None => {
            proof {
                assert(ents_view(out@) =~= mid + Seq::<(Seq<char>, DocV)>::empty());
            }
        },
    }
    DocValue::Table(out)
}

/// The entries of the serialized `hooks` section.
fn hooks_entries(h: &HooksSpec) -> (out: Vec<(String, DocValue)>)
    ensures
        ents_view(out@) == spec_hooks_entries(*h),
{
    let mut out: Vec<(String, DocValue)> = Vec::new();
    out.push((String::from_str("pre_tool_use"), DocValue::Bool(h.pre_tool_use)));
    out.push((String::from_str("post_tool_use"), DocValue::Bool(h.post_tool_use)));
    out.push((String::from_str("stop"), DocValue::Bool(h.stop)));
    out.push((String::from_str("session_start"), DocValue::Bool(h.session_start)));
    out.push((String::from_str("session_end"), DocValue::Bool(h.session_end)));
    out.push((String::from_str("subagent_stop"), DocValue::Bool(h.subagent_stop)));
    proof {
        lemma_ents_view(out@);
        assert(ents_view(out@) =~= spec_hooks_entries(*h));
    }
    out
}

/// The entries of the serialized `build` section.
fn build_entries(b: &BuildSpec) -> (out: Vec<(String, DocValue)>)
    ensures
        ents_view(out@) == spec_build_entries(b@),
{
    let mut out: Vec<(String, DocValue)> = Vec::new();
    out.push((String::from_str("type"), DocValue::Str(build_to_string(b.build_type))));
    proof {
        lemma_ents_view(out@);
    }
    let ghost base = ents_view(out@);
    proof {
        assert(base =~= seq![("type"@, DocV::Str(build_name(b.build_type)))]);
    }
    push_opt_str(&mut out, "requirements", &b.requirements);
    push_opt_str(&mut out, "install_command", &b.install_command);
    push_opt_str(&mut out, "build_command", &b.build_command);
    proof {
        assert(ents_view(out@) == spec_build_entries(b@));
    }
    out
}

/// The entries of a serialized keyed section of offered capabilities.
fn provides_to_entries(v: &Vec<(String, ProvideSpec)>) -> (out: Vec<(String, DocValue)>)
    ensures
        ents_view(out@) == provides_doc(provides_pairs(v@)),
{
    let n = v.len();
    let mut out: Vec<(String, DocValue)> = Vec::new();
    let mut i: usize = 0;
    while i < n
        invariant
            n == v@.len(),
            i <= n,
            out@.len() == i,
            forall|j: int| 0 <= j < i ==> out@[j].0@ == v@[j].0@ && dv(out@[j].1) == spec_provide_doc(v@[j].1@),
        decreases n - i,
    {
        out.push((v[i].0.clone(), provide_to_doc(&v[i].1)));
        i = i + 1;
    }
    proof {
        lemma_ents_view(out@);
        assert(ents_view(out@) =~= provides_doc(provides_pairs(v@)));
    }
    out
}

/// The entries of a serialized keyed section of consumed capabilities.
fn consumes_to_entries(v: &Vec<(String, ConsumeSpec)>) -> (out: Vec<(String, DocValue)>)
    ensures
        ents_view(out@) == consumes_doc(consumes_pairs(v@)),
{
    let n = v.len();
    let mut out: Vec<(String, DocValue)> = Vec::new();
    let mut i: usize = 0;
    while i < n
        invariant
            n == v@.len(),
            i <= n,
            out@.len() == i,
            forall|j: int| 0 <= j < i ==> out@[j].0@ == v@[j].0@ && dv(out@[j].1) == spec_consume_doc(v@[j].1@),
        decreases n - i,
    {
        out.push((v[i].0.clone(), consume_to_doc(&v[i].1)));
        i = i + 1;
    }
    proof {
        lemma_ents_view(out@);
        assert(ents_view(out@) =~= consumes_doc(consumes_pairs(v@)));
    }
    out
}

/// The entries of a serialized configuration schema.
fn configs_to_entries(v: &Vec<(String, ConfigSpec)>) -> (out: Vec<(String, DocValue)>)
    ensures
        ents_view(out@) == configs_doc(config_pairs(v@)),
{
    let n = v.len();
    let mut out: Vec<(String, DocValue)> = Vec::new();
    let mut i: usize = 0;
    while i < n
        invariant
            n == v@.len(),
            i <= n,
            out@.len() == i,
            forall|j: int| 0 <= j < i ==> out@[j].0@ == v@[j].0@ && dv(out@[j].1) == spec_config_doc(v@[j].1@),
        decreases n - i,
    {
        out.push((v[i].0.clone(), config_to_doc(&v[i].1)));
        i = i + 1;
    }
    proof {
        lemma_ents_view(out@);
        assert(ents_view(out@) =~= configs_doc(config_pairs(v@)));
    }
    out
}

/// The serialized descriptor document of a manifest.
pub fn manifest_to_doc(m: &PluginManifest) -> (r: DocValue)
    ensures
        r@ == spec_manifest_doc(m@),
{
    let mut paii_out: Vec<(String, DocValue)> = Vec::new();
    proof {
        lemma_ents_view(paii_out@);
    }
    let ghost paii_base = ents_view(paii_out@);
    proof {
        assert(paii_base =~= Seq::<(Seq<char>, DocV)>::empty());
    }
    push_opt_str(&mut paii_out, "core_version", &m.paii.core_version);
    proof {
        assert(ents_view(paii_out@) =~= opt_str_entry("core_version"@, osv(m.paii.core_version)));
    }
    let mut out: Vec<(String, DocValue)> = Vec::new();
    out.push((String::from_str("plugin"), DocValue::Table(info_entries(&m.plugin))));
    out.push((String::from_str("paii"), DocValue::Table(paii_out)));
    out.push((String::from_str("provides"), DocValue::Table(provides_to_entries(&m.provides))));
    out.push((String::from_str("consumes"), DocValue::Table(consumes_to_entries(&m.consumes))));
    out.push((String::from_str("config"), DocValue::Table(configs_to_entries(&m.config))));
    out.push((String::from_str("hooks"), DocValue::Table(hooks_entries(&m.hooks))));
    out.push((String::from_str("build"), DocValue::Table(build_entries(&m.build))));
    proof {
        lemma_ents_view(out@);
        assert(ents_view(out@) =~= spec_manifest_doc(m@)->Table_0);
    }
    DocValue::Table(out)
}

impl PluginManifest {
    /// Renders the manifest as descriptor text; rendering always succeeds,
    /// the document being a table.  Rendering never loses a section:
    /// parsing the rendered document yields the manifest back (see
    /// [`lemma_manifest_roundtrip`]).
    pub fn serialize(&self) -> (r: Option<String>)
        ensures
            r matches Some(s) && s@ == text_of_doc(spec_manifest_doc(self@)),
    {
        let d = manifest_to_doc(self);
        proof {
            assert(d@ is Table);
        }
        render_doc(&d)
    }
}

// ---------------------------------------------------------------------------
// The round-trip law: parsing a serialized manifest yields it back
// ---------------------------------------------------------------------------

/// A language name parses back to the language.
proof fn lemma_lang_roundtrip(l: PluginLanguage)
    ensures
        lang_of_name(lang_name(l)) == Some(l),
{
    reveal_strlit("python");
    reveal_strlit("rust");
    reveal_strlit("mixed");
    assert("python"@.len() == 6);
    assert("rust"@.len() == 4);
    assert("mixed"@.len() == 5);
}

/// A build-type name parses back to the build type.
proof fn lemma_build_name_roundtrip(b: BuildType)
    ensures
        build_of_name(build_name(b)) == Some(b),
{
    reveal_strlit("uv");
    reveal_strlit("cargo");
    reveal_strlit("custom");
    assert("uv"@.len() == 2);
    assert("cargo"@.len() == 5);
    assert("custom"@.len() == 6);
}

/// Serialized strings parse back to themselves.
proof fn lemma_strs_roundtrip(v: Seq<Seq<char>>)
    ensures
        all_strs(strs_doc(v)),
        strs_of(strs_doc(v)) == v,
{
    assert(strs_of(strs_doc(v)) =~= v);
}

/// The serialized `plugin` section parses back to itself.
proof fn lemma_info_roundtrip(i: InfoV)
    requires
        i.name.len() > 0,
        i.version.len() > 0,
    ensures
        spec_parse_info(spec_info_entries(i)) == Ok::<InfoV, Seq<char>>(i),
{
    reveal_strlit("name");
    reveal_strlit("version");
    reveal_strlit("description");
    reveal_strlit("authors");
    reveal_strlit("language");
    reveal_strlit("keywords");
    reveal_strlit("license");
    reveal_strlit("repository");
    reveal_strlit("homepage");
    assert("name"@.len() == 4);
    assert("version"@.len() == 7);
    assert("description"@.len() == 11);
    assert("authors"@.len() == 7);
    assert("language"@.len() == 8);
    assert("keywords"@.len() == 8);
    assert("license"@.len() == 7);
    assert("repository"@.len() == 10);
    assert("homepage"@.len() == 8);
    assert("version"@[0] == 'v' && "authors"@[0] == 'a' && "license"@[0] == 'l');
    assert("language"@[0] == 'l' && "keywords"@[0] == 'k' && "homepage"@[0] == 'h');
    assert("version"@ != "authors"@ && "version"@ != "license"@ && "authors"@ != "license"@);
    assert("language"@ != "keywords"@ && "language"@ != "homepage"@ && "keywords"@ != "homepage"@);
    let t = spec_info_entries(i);
    let base = seq![
        ("name"@, DocV::Str(i.name)),
        ("version"@, DocV::Str(i.version)),
        ("description"@, DocV::Str(i.description)),
        ("authors"@, DocV::Arr(strs_doc(i.authors))),
        ("language"@, DocV::Str(lang_name(i.language))),
        ("keywords"@, DocV::Arr(strs_doc(i.keywords))),
    ];
    let lic = opt_str_entry("license"@, i.license);
    let rep = opt_str_entry("repository"@, i.repository);
    let hom = opt_str_entry("homepage"@, i.homepage);
    assert(t == ((base + lic) + rep) + hom);
    assert forall|x: int| 0 <= x < 6 implies t[x] == base[x] by {
        assert(((base + lic) + rep) + hom == t);
    }
    // the keys appearing anywhere in the table
    assert(t.len() == 6 + lic.len() + rep.len() + hom.len());
    assert(lic.len() <= 1 && rep.len() <= 1 && hom.len() <= 1);
    assert(lic.len() == 1 ==> t[6] == lic[0]);
    assert(rep.len() == 1 ==> t[6 + lic.len() as int] == rep[0]);
    assert(hom.len() == 1 ==> t[6 + lic.len() as int + rep.len() as int] == hom[0]);
    assert forall|x: int| 6 <= x < t.len() implies (t[x].0 == "license"@ && i.license is Some && t[x].1
        == DocV::Str(i.license->0)) || (t[x].0 == "repository"@ && i.repository is Some && t[x].1
        == DocV::Str(i.repository->0)) || (t[x].0 == "homepage"@ && i.homepage is Some && t[x].1
        == DocV::Str(i.homepage->0)) by {
        assert(x == 6 || x == 6 + lic.len() || x == 6 + lic.len() + rep.len());
    }
    // name
    lemma_tbl_get_skip(t, "name"@, 0);
    assert(tbl_get(t, "name"@) == Some(DocV::Str(i.name)));
    // version
    lemma_tbl_get_skip(t, "version"@, 1);
    assert(tbl_get(t, "version"@) == Some(DocV::Str(i.version)));
    // description
    lemma_tbl_get_skip(t, "description"@, 2);
    assert(tbl_get(t, "description"@) == Some(DocV::Str(i.description)));
    // authors
    lemma_tbl_get_skip(t, "authors"@, 3);
    assert(tbl_get(t, "authors"@) == Some(DocV::Arr(strs_doc(i.authors))));
    lemma_strs_roundtrip(i.authors);
    // language
    lemma_tbl_get_skip(t, "language"@, 4);
    assert(tbl_get(t, "language"@) == Some(DocV::Str(lang_name(i.language))));
    lemma_lang_roundtrip(i.language);
    // keywords
    lemma_tbl_get_skip(t, "keywords"@, 5);
    assert(tbl_get(t, "keywords"@) == Some(DocV::Arr(strs_doc(i.keywords))));
    lemma_strs_roundtrip(i.keywords);
    // license
    match i.license {
        Some(s) => {
            lemma_tbl_get_skip(t, "license"@, 6);
            assert(tbl_get_from(t, "license"@, 6) == Some(DocV::Str(s)));
        },
        None => {
            lemma_tbl_get_skip(t, "license"@, t.len() as int);
        },
    }
    // repository
    match i.repository {
        Some(s) => {
            let j = 6 + lic.len() as int;
            lemma_tbl_get_skip(t, "repository"@, j);
            assert(tbl_get_from(t, "repository"@, j) == Some(DocV::Str(s)));
        },
        None => {
            lemma_tbl_get_skip(t, "repository"@, t.len() as int);
        },
    }
    // homepage
    match i.homepage {
        Some(s) => {
            let j = 6 + lic.len() as int + rep.len() as int;
            lemma_tbl_get_skip(t, "homepage"@, j);
            assert(tbl_get_from(t, "homepage"@, j) == Some(DocV::Str(s)));
        },
        None => {
            lemma_tbl_get_skip(t, "homepage"@, t.len() as int);
        },
    }
    assert(spec_parse_info(t) == Ok::<InfoV, Seq<char>>(i));
}

/// A serialized offered capability parses back to itself.
proof fn lemma_provide_roundtrip(p: ProvideV)
    ensures
        spec_parse_provide(spec_provide_doc(p)) == Some(p),
{
    reveal_strlit("contract");
    reveal_strlit("service");
    assert("contract"@.len() == 8);
    assert("service"@.len() == 7);
    match p {
        ProvideV::Simple(_) => {},
        ProvideV::Detailed { contract, service } => {
            let t = seq![("contract"@, DocV::Str(contract))] + opt_str_entry("service"@, service);
            assert(t[0] == ("contract"@, DocV::Str(contract)));
            lemma_tbl_get_skip(t, "contract"@, 0);
            match service {
                Some(s) => {
                    assert(t[1] == ("service"@, DocV::Str(s)));
                    lemma_tbl_get_skip(t, "service"@, 1);
                    assert(tbl_get_from(t, "service"@, 1) == Some(DocV::Str(s)));
                },
                None => {
                    lemma_tbl_get_skip(t, "service"@, t.len() as int);
                },
            }
        },
    }
}

/// A serialized consumed capability parses back to itself.
proof fn lemma_consume_roundtrip(c: ConsumeV)
    ensures
        spec_parse_consume(spec_consume_doc(c)) == Some(c),
{
    reveal_strlit("contract");
    reveal_strlit("optional");
    reveal_strlit("service");
    assert("contract"@.len() == 8);
    assert("optional"@.len() == 8);
    assert("service"@.len() == 7);
    assert("contract"@[0] == 'c' && "optional"@[0] == 'o');
    assert("contract"@ != "optional"@);
    let t = seq![("contract"@, DocV::Str(c.contract)), ("optional"@, DocV::Bool(c.optional))]
        + opt_str_entry("service"@, c.service);
    assert(t[0] == ("contract"@, DocV::Str(c.contract)));
    assert(t[1] == ("optional"@, DocV::Bool(c.optional)));
    lemma_tbl_get_skip(t, "contract"@, 0);
    lemma_tbl_get_skip(t, "optional"@, 1);
    assert(tbl_get_from(t, "optional"@, 1) == Some(DocV::Bool(c.optional)));
    match c.service {
        Some(s) => {
            assert(t[2] == ("service"@, DocV::Str(s)));
            lemma_tbl_get_skip(t, "service"@, 2);
            assert(tbl_get_from(t, "service"@, 2) == Some(DocV::Str(s)));
        },
        None => {
            lemma_tbl_get_skip(t, "service"@, t.len() as int);
        },
    }
}

/// A serialized configuration key parses back to itself.
proof fn lemma_config_roundtrip(c: ConfigV)
    ensures
        spec_parse_config_entry(spec_config_doc(c)) == Some(c),
{
    reveal_strlit("type");
    reveal_strlit("required");
    reveal_strlit("secret");
    reveal_strlit("env");
    reveal_strlit("default");
    assert("type"@.len() == 4);
    assert("required"@.len() == 8);
    assert("secret"@.len() == 6);
    assert("env"@.len() == 3);
    assert("default"@.len() == 7);
    let base = seq![
        ("type"@, DocV::Str(c.value_type)),
        ("required"@, DocV::Bool(c.required)),
        ("secret"@, DocV::Bool(c.secret)),
    ];
    let envp = opt_str_entry("env"@, c.env);
    let defp: Seq<(Seq<char>, DocV)> = match c.default {
        Some(d) => seq![("default"@, d)],
        None => Seq::empty(),
    };
    let t = (base + envp) + defp;
    assert(spec_config_doc(c) == DocV::Table(t));
    assert forall|x: int| 0 <= x < 3 implies t[x] == base[x] by {}
    assert(envp.len() == 1 ==> t[3] == envp[0]);
    assert(defp.len() == 1 ==> t[3 + envp.len() as int] == defp[0]);
    lemma_tbl_get_skip(t, "type"@, 0);
    lemma_tbl_get_skip(t, "required"@, 1);
    assert(tbl_get_from(t, "required"@, 1) == Some(DocV::Bool(c.required)));
    lemma_tbl_get_skip(t, "secret"@, 2);
    assert(tbl_get_from(t, "secret"@, 2) == Some(DocV::Bool(c.secret)));
    match c.env {
        Some(s) => {
            lemma_tbl_get_skip(t, "env"@, 3);
            assert(tbl_get_from(t, "env"@, 3) == Some(DocV::Str(s)));
        },
        None => {
            lemma_tbl_get_skip(t, "env"@, t.len() as int);
        },
    }
    match c.default {
        Some(d) => {
            let j = 3 + envp.len() as int;
            lemma_tbl_get_skip(t, "default"@, j);
            assert(tbl_get_from(t, "default"@, j) == Some(d));
        },
        None => {
            lemma_tbl_get_skip(t, "default"@, t.len() as int);
        },
    }
}

/// Serialized `provides` entries parse back to themselves, in order.
proof fn lemma_provides_roundtrip(v: Seq<(Seq<char>, ProvideV)>)
    ensures
        spec_parse_provides(provides_doc(v)) == Ok::<Seq<(Seq<char>, ProvideV)>, Seq<char>>(v),
    decreases v.len(),
{
    let pd = provides_doc(v);
    if v.len() == 0 {
        assert(pd =~= Seq::empty());
        assert(v =~= Seq::empty());
    } else {
        assert(pd.drop_last() =~= provides_doc(v.drop_last()));
        lemma_provides_roundtrip(v.drop_last());
        assert(pd.last() == (v.last().0, spec_provide_doc(v.last().1)));
        lemma_provide_roundtrip(v.last().1);
        assert(pd.last().0 == v.last().0);
        assert((v.last().0, v.last().1) == v.last());
        assert(spec_parse_provides(pd) == Ok::<Seq<(Seq<char>, ProvideV)>, Seq<char>>(
            v.drop_last().push((pd.last().0, v.last().1)),
        ));
        assert(v.drop_last().push((pd.last().0, v.last().1)) =~= v);
    }
}

/// Serialized `consumes` entries parse back to themselves, in order.
proof fn lemma_consumes_roundtrip(v: Seq<(Seq<char>, ConsumeV)>)
    ensures
        spec_parse_consumes(consumes_doc(v)) == Ok::<Seq<(Seq<char>, ConsumeV)>, Seq<char>>(v),
    decreases v.len(),
{
    let pd = consumes_doc(v);
    if v.len() == 0 {
        assert(pd =~= Seq::empty());
        assert(v =~= Seq::empty());
    } else {
        assert(pd.drop_last() =~= consumes_doc(v.drop_last()));
        lemma_consumes_roundtrip(v.drop_last());
        assert(pd.last() == (v.last().0, spec_consume_doc(v.last().1)));
        lemma_consume_roundtrip(v.last().1);
        assert(pd.last().0 == v.last().0);
        assert((v.last().0, v.last().1) == v.last());
        assert(spec_parse_consumes(pd) == Ok::<Seq<(Seq<char>, ConsumeV)>, Seq<char>>(
            v.drop_last().push((pd.last().0, v.last().1)),
        ));
        assert(v.drop_last().push((pd.last().0, v.last().1)) =~= v);
    }
}

/// Serialized `config` entries parse back to themselves, in order.
proof fn lemma_configs_roundtrip(v: Seq<(Seq<char>, ConfigV)>)
    ensures
        spec_parse_configs(configs_doc(v)) == Ok::<Seq<(Seq<char>, ConfigV)>, Seq<char>>(v),
    decreases v.len(),
{
    let pd = configs_doc(v);
    if v.len() == 0 {
        assert(pd =~= Seq::empty());
        assert(v =~= Seq::empty());
    } else {
        assert(pd.drop_last() =~= configs_doc(v.drop_last()));
        lemma_configs_roundtrip(v.drop_last());
        assert(pd.last() == (v.last().0, spec_config_doc(v.last().1)));
        lemma_config_roundtrip(v.last().1);
        assert(pd.last().0 == v.last().0);
        assert((v.last().0, v.last().1) == v.last());
        assert(spec_parse_configs(pd) == Ok::<Seq<(Seq<char>, ConfigV)>, Seq<char>>(
            v.drop_last().push((pd.last().0, v.last().1)),
        ));
        assert(v.drop_last().push((pd.last().0, v.last().1)) =~= v);
    }
}

/// The serialized `hooks` section parses back to itself.
proof fn lemma_hooks_roundtrip(h: HooksSpec)
    ensures
        spec_parse_hooks(Some(DocV::Table(spec_hooks_entries(h)))) == Ok::<HooksSpec, Seq<char>>(h),
{
    reveal_strlit("pre_tool_use");
    reveal_strlit("post_tool_use");
    reveal_strlit("stop");
    reveal_strlit("session_start");
    reveal_strlit("session_end");
    reveal_strlit("subagent_stop");
    assert("pre_tool_use"@.len() == 12);
    assert("post_tool_use"@.len() == 13);
    assert("stop"@.len() == 4);
    assert("session_start"@.len() == 13);
    assert("session_end"@.len() == 11);
    assert("subagent_stop"@.len() == 13);
    assert("post_tool_use"@[0] == 'p' && "session_start"@[0] == 's' && "subagent_stop"@[0] == 's');
    assert("session_start"@[1] == 'e' && "subagent_stop"@[1] == 'u');
    assert("post_tool_use"@ != "session_start"@ && "post_tool_use"@ != "subagent_stop"@
        && "session_start"@ != "subagent_stop"@);
    let t = spec_hooks_entries(h);
    lemma_tbl_get_skip(t, "pre_tool_use"@, 0);
    lemma_tbl_get_skip(t, "post_tool_use"@, 1);
    assert(tbl_get_from(t, "post_tool_use"@, 1) == Some(DocV::Bool(h.post_tool_use)));
    lemma_tbl_get_skip(t, "stop"@, 2);
    assert(tbl_get_from(t, "stop"@, 2) == Some(DocV::Bool(h.stop)));
    lemma_tbl_get_skip(t, "session_start"@, 3);
    assert(tbl_get_from(t, "session_start"@, 3) == Some(DocV::Bool(h.session_start)));
    lemma_tbl_get_skip(t, "session_end"@, 4);
    assert(tbl_get_from(t, "session_end"@, 4) == Some(DocV::Bool(h.session_end)));
    lemma_tbl_get_skip(t, "subagent_stop"@, 5);
    assert(tbl_get_from(t, "subagent_stop"@, 5) == Some(DocV::Bool(h.subagent_stop)));
}

/// The serialized `build` section parses back to itself.
proof fn lemma_build_roundtrip(b: BuildV)
    ensures
        spec_parse_build(Some(DocV::Table(spec_build_entries(b)))) == Ok::<BuildV, Seq<char>>(b),
{
    reveal_strlit("type");
    reveal_strlit("requirements");
    reveal_strlit("install_command");
    reveal_strlit("build_command");
    assert("type"@.len() == 4);
    assert("requirements"@.len() == 12);
    assert("install_command"@.len() == 15);
    assert("build_command"@.len() == 13);
    let base = seq![("type"@, DocV::Str(build_name(b.build_type)))];
    let req = opt_str_entry("requirements"@, b.requirements);
    let ins = opt_str_entry("install_command"@, b.install_command);
    let bld = opt_str_entry("build_command"@, b.build_command);
    let t = ((base + req) + ins) + bld;
    assert(spec_build_entries(b) == t);
    assert(t[0] == base[0]);
    assert(req.len() == 1 ==> t[1] == req[0]);
    assert(ins.len() == 1 ==> t[1 + req.len() as int] == ins[0]);
    assert(bld.len() == 1 ==> t[1 + req.len() as int + ins.len() as int] == bld[0]);
    assert forall|x: int| 1 <= x < t.len() implies (t[x].0 == "requirements"@ && b.requirements is Some
        && t[x].1 == DocV::Str(b.requirements->0)) || (t[x].0 == "install_command"@
        && b.install_command is Some && t[x].1 == DocV::Str(b.install_command->0)) || (t[x].0
        == "build_command"@ && b.build_command is Some && t[x].1 == DocV::Str(b.build_command->0)) by {
        assert(x == 1 || x == 1 + req.len() || x == 1 + req.len() + ins.len());
    }
    lemma_tbl_get_skip(t, "type"@, 0);
    assert(tbl_get(t, "type"@) == Some(DocV::Str(build_name(b.build_type))));
    lemma_build_name_roundtrip(b.build_type);
    match b.requirements {
        Some(s) => {
            lemma_tbl_get_skip(t, "requirements"@, 1);
            assert(tbl_get_from(t, "requirements"@, 1) == Some(DocV::Str(s)));
        },
        None => {
            lemma_tbl_get_skip(t, "requirements"@, t.len() as int);
        },
    }
    match b.install_command {
        Some(s) => {
            let j = 1 + req.len() as int;
            lemma_tbl_get_skip(t, "install_command"@, j);
            assert(tbl_get_from(t, "install_command"@, j) == Some(DocV::Str(s)));
        },
        None => {
            lemma_tbl_get_skip(t, "install_command"@, t.len() as int);
        },
    }
    match b.build_command {
        Some(s) => {
            let j = 1 + req.len() as int + ins.len() as int;
            lemma_tbl_get_skip(t, "build_command"@, j);
            assert(tbl_get_from(t, "build_command"@, j) == Some(DocV::Str(s)));
        },
        None => {
            lemma_tbl_get_skip(t, "build_command"@, t.len() as int);
        },
    }
}

/// The serialized `paii` section parses back to itself.
proof fn lemma_paii_roundtrip(o: Option<Seq<char>>)
    ensures
        spec_parse_paii(Some(DocV::Table(opt_str_entry("core_version"@, o)))) == Ok::<
            Option<Seq<char>>,
            Seq<char>,
        >(o),
{
    let t = opt_str_entry("core_version"@, o);
    match o {
        Some(s) => {
            lemma_tbl_get_skip(t, "core_version"@, 0);
        },
        None => {
            lemma_tbl_get_skip(t, "core_version"@, 0);
        },
    }
}

/// The round-trip law of the manifest model: for every valid manifest (name
/// and version non-empty), parsing the serialized document yields the very
/// same manifest — in particular the name, version, language and the keyed
/// `provides` and `consumes` entries are preserved.
pub proof fn lemma_manifest_roundtrip(m: ManifestV)
    requires
        m.plugin.name.len() > 0,
        m.plugin.version.len() > 0,
    ensures
        spec_parse_manifest(spec_manifest_doc(m)) == Ok::<ManifestV, Seq<char>>(m),
{
    reveal_strlit("plugin");
    reveal_strlit("paii");
    reveal_strlit("provides");
    reveal_strlit("consumes");
    reveal_strlit("config");
    reveal_strlit("hooks");
    reveal_strlit("build");
    assert("plugin"@.len() == 6);
    assert("paii"@.len() == 4);
    assert("provides"@.len() == 8);
    assert("consumes"@.len() == 8);
    assert("config"@.len() == 6);
    assert("hooks"@.len() == 5);
    assert("build"@.len() == 5);
    assert("plugin"@[0] == 'p' && "config"@[0] == 'c');
    assert("provides"@[0] == 'p' && "consumes"@[0] == 'c');
    assert("hooks"@[0] == 'h' && "build"@[0] == 'b');
    assert("plugin"@ != "config"@ && "provides"@ != "consumes"@ && "hooks"@ != "build"@);
    let t = spec_manifest_doc(m)->Table_0;
    assert(t.len() == 7);
    lemma_tbl_get_skip(t, "plugin"@, 0);
    assert(tbl_get(t, "plugin"@) == Some(DocV::Table(spec_info_entries(m.plugin))));
    lemma_info_roundtrip(m.plugin);
    lemma_tbl_get_skip(t, "paii"@, 1);
    assert(tbl_get_from(t, "paii"@, 1) == Some(DocV::Table(opt_str_entry("core_version"@, m.core_version))));
    lemma_paii_roundtrip(m.core_version);
    lemma_tbl_get_skip(t, "provides"@, 2);
    assert(tbl_get_from(t, "provides"@, 2) == Some(DocV::Table(provides_doc(m.provides))));
    lemma_provides_roundtrip(m.provides);
    lemma_tbl_get_skip(t, "consumes"@, 3);
    assert(tbl_get_from(t, "consumes"@, 3) == Some(DocV::Table(consumes_doc(m.consumes))));
    lemma_consumes_roundtrip(m.consumes);
    lemma_tbl_get_skip(t, "config"@, 4);
    assert(tbl_get_from(t, "config"@, 4) == Some(DocV::Table(configs_doc(m.config))));
    lemma_configs_roundtrip(m.config);
    lemma_tbl_get_skip(t, "hooks"@, 5);
    assert(tbl_get_from(t, "hooks"@, 5) == Some(DocV::Table(spec_hooks_entries(m.hooks))));
    lemma_hooks_roundtrip(m.hooks);
    lemma_tbl_get_skip(t, "build"@, 6);
    assert(tbl_get_from(t, "build"@, 6) == Some(DocV::Table(spec_build_entries(m.build))));
    lemma_build_roundtrip(m.build);
}

} // verus!
