//! The tool's configuration: root paths, defaults and configured
//! registries.
//!
//! The configuration is an explicit value, loaded once per invocation and
//! passed into every core operation; the core never mutates or re-reads it
//! mid-operation.  Registries are a keyed sequence in insertion order, the
//! first entry with a key winning a lookup.

use vstd::prelude::*;
use crate::codec::{doc_of_text, parse_text, render_doc, text_of_doc};
use crate::doc::{dv, tbl_get, DocV, DocValue, ents_view, lemma_ents_view, table_get};
use crate::errors::{CoreError, ErrorV};
use crate::manifest::{osv, ParseFailure};
use crate::strutil::{has_char, path_join, str_eq};

verus! {

/// Identity of the tool's own configuration.
#[derive(Debug, Clone)]
pub struct PaiiConfig {
    pub version: String,
}

/// The root paths: the plugin store, the history store and the registry
/// cache.
#[derive(Debug, Clone)]
pub struct PathsConfig {
    pub plugins: String,
    pub history: String,
    pub registries: String,
}

/// Defaults for new plugins and logging.
#[derive(Debug, Clone)]
pub struct DefaultsConfig {
    pub language: String,
    pub log_level: String,
}

/// Which hook modules are enabled.
#[derive(Debug, Clone, Copy, PartialEq, Eq, Structural)]
pub struct HooksConfig {
    pub security_enabled: bool,
    pub history_enabled: bool,
}

/// The whole configuration.
#[derive(Debug, Clone)]
pub struct Config {
    pub paii: PaiiConfig,
    pub paths: PathsConfig,
    pub defaults: DefaultsConfig,
    pub registries: Vec<(String, String)>,
    pub hooks: HooksConfig,
}

/// Spec shape of [`PathsConfig`].
pub struct PathsV {
    pub plugins: Seq<char>,
    pub history: Seq<char>,
    pub registries: Seq<char>,
}

impl View for PathsConfig {
    type V = PathsV;

    open spec fn view(&self) -> PathsV {
        PathsV { plugins: self.plugins@, history: self.history@, registries: self.registries@ }
    }
}

/// Spec shape of [`DefaultsConfig`].
pub struct DefaultsV {
    pub language: Seq<char>,
    pub log_level: Seq<char>,
}

impl View for DefaultsConfig {
    type V = DefaultsV;

    open spec fn view(&self) -> DefaultsV {
        DefaultsV { language: self.language@, log_level: self.log_level@ }
    }
}

/// The spec value of a keyed sequence of strings.
pub open spec fn pairs_v(v: Seq<(String, String)>) -> Seq<(Seq<char>, Seq<char>)> {
    Seq::new(v.len(), |i: int| (v[i].0@, v[i].1@))
}

/// Spec shape of [`Config`].
pub struct ConfigV {
    pub version: Seq<char>,
    pub paths: PathsV,
    pub defaults: DefaultsV,
    pub registries: Seq<(Seq<char>, Seq<char>)>,
    pub hooks: HooksConfig,
}

impl View for Config {
    type V = ConfigV;

    open spec fn view(&self) -> ConfigV {
        ConfigV {
            version: self.paii.version@,
            paths: self.paths@,
            defaults: self.defaults@,
            registries: pairs_v(self.registries@),
            hooks: self.hooks,
        }
    }
}

/// The tool's own version label.
pub const TOOL_VERSION: &'static str = "0.1.0";

/// The one registry configured out of the box.
pub const CORE_REGISTRY_URL: &'static str = "https://raw.githubusercontent.com/scottidler/paii/main/registry/plugins.toml";

/// The configuration derived from a base directory.
pub open spec fn spec_with_base(base: Seq<char>) -> ConfigV {
    ConfigV {
        version: TOOL_VERSION@,
        paths: PathsV {
            plugins: base + "/"@ + "plugins"@,
            history: base + "/"@ + "history"@,
            registries: base + "/"@ + "registries"@,
        },
        defaults: DefaultsV { language: "python"@, log_level: "info"@ },
        registries: seq![("core"@, CORE_REGISTRY_URL@)],
        hooks: HooksConfig { security_enabled: true, history_enabled: true },
    }
}

/// Relies on `dirs::config_dir`: the platform's configuration directory,
/// when it exists and its path is well-formed text.
#[verifier::external_body]
fn config_base_dir() -> (r: Option<String>) {
    dirs::config_dir().and_then(|p| p.into_os_string().into_string().ok())
}

impl Config {
    /// The configuration rooted at a base directory.
    pub fn with_base(base: &str) -> (r: Config)
        ensures
            r@ == spec_with_base(base@),
    {
        let mut registries: Vec<(String, String)> = Vec::new();
        registries.push((String::from_str("core"), String::from_str(CORE_REGISTRY_URL)));
        let r = Config {
            paii: PaiiConfig { version: String::from_str(TOOL_VERSION) },
            paths: PathsConfig {
                plugins: path_join(base, "plugins"),
                history: path_join(base, "history"),
                registries: path_join(base, "registries"),
            },
            defaults: DefaultsConfig {
                language: String::from_str("python"),
                log_level: String::from_str("info"),
            },
            registries,
            hooks: HooksConfig { security_enabled: true, history_enabled: true },
        };
        proof {
            assert(r@.registries =~= spec_with_base(base@).registries);
        }
        r
    }

    /// The directory the tool keeps its state under: an explicit override
    /// wins, else the platform configuration directory, else the working
    /// directory.
    pub fn paii_dir(env_override: Option<String>) -> (r: String)
        ensures
            match env_override {
                Some(d) => r@ == d@,
                None => exists|b: Seq<char>| r@ == b + "/"@ + "paii"@,
            },
    {
        match env_override {
            Some(d) => d,
            None => {
                let base = match config_base_dir() {
                    Some(b) => b,
                    None => String::from_str("."),
                };
                let r = path_join(base.as_str(), "paii");
                proof {
                    assert(r@ == base@ + "/"@ + "paii"@);
                }
                r
            },
        }
    }

    /// Expands a leading `~` and `$`-variables in a path.
    ///
    /// Relies on `shellexpand::full`: a path without a `$` anywhere and
    /// without a leading `~` is returned unchanged; expansion errors leave
    /// the path unchanged as well.
    #[verifier::external_body]
    pub fn expand_path(path: &str) -> (r: String)
        ensures
            !has_char(path@, '$') && (path@.len() == 0 || path@[0] != '~') ==> r@ == path@,
    {
        match shellexpand::full(path) {
            Ok(c) => c.into_owned(),
            Err(_) => path.to_string(),
        }
    }

    /// A copy of the configuration.
    pub fn duplicate(&self) -> (r: Config)
        ensures
            r@ == self@,
    {
        let r = Config {
            paii: PaiiConfig { version: self.paii.version.clone() },
            paths: PathsConfig {
                plugins: self.paths.plugins.clone(),
                history: self.paths.history.clone(),
                registries: self.paths.registries.clone(),
            },
            defaults: DefaultsConfig {
                language: self.defaults.language.clone(),
                log_level: self.defaults.log_level.clone(),
            },
            registries: dup_pairs(&self.registries),
            hooks: self.hooks,
        };
        r
    }
}

impl Default for Config {
    /// The configuration used when no configuration file exists: rooted at
    /// the platform configuration directory (the working directory when
    /// there is none).
    fn default() -> (r: Config)
        ensures
            exists|b: Seq<char>| r@ == spec_with_base(b),
    {
        let base = match config_base_dir() {
            Some(b) => b,
            None => String::from_str("."),
        };
        let root = path_join(base.as_str(), "paii");
        let r = Config::with_base(root.as_str());
        proof {
            assert(r@ == spec_with_base(root@));
        }
        r
    }
}

impl Default for PaiiConfig {
    /// The tool's own version.
    fn default() -> (r: PaiiConfig)
        ensures
            r.version@ == TOOL_VERSION@,
    {
        PaiiConfig { version: String::from_str(TOOL_VERSION) }
    }
}

impl Default for DefaultsConfig {
    /// Interpreted plugins and informational logging.
    fn default() -> (r: DefaultsConfig)
        ensures
            r.language@ == "python"@,
            r.log_level@ == "info"@,
    {
        DefaultsConfig { language: String::from_str("python"), log_level: String::from_str("info") }
    }
}

impl Default for HooksConfig {
    /// Both hook modules enabled.
    fn default() -> (r: HooksConfig)
        ensures
            r.security_enabled,
            r.history_enabled,
    {
        HooksConfig { security_enabled: true, history_enabled: true }
    }
}

impl Default for PathsConfig {
    /// The three stores under the tool's directory in the platform
    /// configuration directory (the working directory when there is none).
    fn default() -> (r: PathsConfig)
        ensures
            exists|b: Seq<char>|
                r@ == (PathsV {
                    plugins: b + "/"@ + "plugins"@,
                    history: b + "/"@ + "history"@,
                    registries: b + "/"@ + "registries"@,
                }),
    {
        let base = match config_base_dir() {
            Some(b) => b,
            None => String::from_str("."),
        };
        let root = path_join(base.as_str(), "paii");
        let r = PathsConfig {
            plugins: path_join(root.as_str(), "plugins"),
            history: path_join(root.as_str(), "history"),
            registries: path_join(root.as_str(), "registries"),
        };
        proof {
            assert(r@ == (PathsV {
                plugins: root@ + "/"@ + "plugins"@,
                history: root@ + "/"@ + "history"@,
                registries: root@ + "/"@ + "registries"@,
            }));
        }
        r
    }
}

/// A copy of a keyed sequence of strings.
fn dup_pairs(v: &Vec<(String, String)>) -> (r: Vec<(String, String)>)
    ensures
        pairs_v(r@) == pairs_v(v@),
{
    let n = v.len();
    let mut out: Vec<(String, String)> = Vec::new();
    let mut i: usize = 0;
    while i < n
        invariant
            n == v@.len(),
            i <= n,
            out@.len() == i,
            forall|j: int| 0 <= j < i ==> out@[j].0@ == v@[j].0@ && out@[j].1@ == v@[j].1@,
        decreases n - i,
    {
        out.push((v[i].0.clone(), v[i].1.clone()));
        i = i + 1;
    }
    proof {
        assert(pairs_v(out@) =~= pairs_v(v@));
    }
    out
}

// ---------------------------------------------------------------------------
// The registry map
// ---------------------------------------------------------------------------

/// A key occurs in a keyed sequence.
pub open spec fn map_has_key(m: Seq<(Seq<char>, Seq<char>)>, k: Seq<char>) -> bool {
    exists|i: int| 0 <= i < m.len() && m[i].0 == k
}

/// The value of the first entry with the key, from position `i`.
pub open spec fn map_get_from(m: Seq<(Seq<char>, Seq<char>)>, k: Seq<char>, i: int) -> Option<Seq<char>>
    decreases m.len() - i,
{
    if i < 0 || i >= m.len() {
        None
    } else if m[i].0 == k {
        Some(m[i].1)
    } else {
        map_get_from(m, k, i + 1)
    }
}

/// The value of the first entry with the key.
pub open spec fn map_get(m: Seq<(Seq<char>, Seq<char>)>, k: Seq<char>) -> Option<Seq<char>> {
    map_get_from(m, k, 0)
}

/// The sequence with every entry of the key removed, order kept.
pub open spec fn map_remove(m: Seq<(Seq<char>, Seq<char>)>, k: Seq<char>) -> Seq<(Seq<char>, Seq<char>)>
    decreases m.len(),
{
    if m.len() == 0 {
        Seq::empty()
    } else {
        let rest = map_remove(m.drop_last(), k);
        if m.last().0 == k {
            rest
        } else {
            rest.push(m.last())
        }
    }
}

/// Whether a registry of the name is configured.
pub fn registries_contain(v: &Vec<(String, String)>, k: &str) -> (r: bool)
    ensures
        r == map_has_key(pairs_v(v@), k@),
{
    let n = v.len();
    let mut i: usize = 0;
    while i < n
        invariant
            n == v@.len(),
            i <= n,
            forall|j: int| 0 <= j < i ==> pairs_v(v@)[j].0 != k@,
        decreases n - i,
    {
        if str_eq(v[i].0.as_str(), k) {
            assert(pairs_v(v@)[i as int].0 == k@);
            return true;
        }
        assert(pairs_v(v@)[i as int].0 != k@);
        i = i + 1;
    }
    false
}

/// The URL of the first configured registry with the name.
pub fn registries_get(v: &Vec<(String, String)>, k: &str) -> (r: Option<String>)
    ensures
        match r {
            Some(u) => map_get(pairs_v(v@), k@) == Some(u@),
            None => map_get(pairs_v(v@), k@) is None,
        },
{
    let ghost pv = pairs_v(v@);
    let n = v.len();
    let mut i: usize = 0;
    while i < n
        invariant
            n == v@.len(),
            i <= n,
            pv == pairs_v(v@),
            pv.len() == n,
            map_get_from(pv, k@, 0) == map_get_from(pv, k@, i as int),
        decreases n - i,
    {
        if str_eq(v[i].0.as_str(), k) {
            assert(pv[i as int].0 == k@);
            return Some(v[i].1.clone());
        }
        assert(pv[i as int].0 != k@);
        i = i + 1;
    }
    None
}

/// Adds a registry: a name that is already configured is a collision; the
/// new entry is appended, the rest of the configuration unchanged.
pub fn add_registry(c: &Config, name: &str, url: &str) -> (r: Result<Config, CoreError>)
    ensures
        match r {
            Ok(c2) => !map_has_key(c@.registries, name@) && c2@ == (ConfigV {
                registries: c@.registries.push((name@, url@)),
                ..c@
            }),
            Err(e) => map_has_key(c@.registries, name@) && e@ == (ErrorV::AlreadyExists { context: name@ }),
        },
{
    if registries_contain(&c.registries, name) {
        return Err(CoreError::AlreadyExists { context: String::from_str(name) });
    }
    let mut c2 = c.duplicate();
    c2.registries.push((String::from_str(name), String::from_str(url)));
    proof {
        assert(pairs_v(c2.registries@) =~= c@.registries.push((name@, url@)));
    }
    Ok(c2)
}

/// Removes a registry: an unknown name is not found; every entry of the
/// name leaves the sequence, order kept, the rest of the configuration
/// unchanged.
pub fn remove_registry(c: &Config, name: &str) -> (r: Result<Config, CoreError>)
    ensures
        match r {
            Ok(c2) => map_has_key(c@.registries, name@) && c2@ == (ConfigV {
                registries: map_remove(c@.registries, name@),
                ..c@
            }),
            Err(e) => !map_has_key(c@.registries, name@) && e@ == (ErrorV::NotFound { context: name@ }),
        },
{
    if !registries_contain(&c.registries, name) {
        return Err(CoreError::NotFound { context: String::from_str(name) });
    }
    let ghost pv = pairs_v(c.registries@);
    let n = c.registries.len();
    let mut kept: Vec<(String, String)> = Vec::new();
    let mut i: usize = 0;
    proof {
        assert(pv.subrange(0, 0) =~= Seq::empty());
        assert(map_remove(pv.subrange(0, 0), name@) =~= pairs_v(kept@));
    }
    while i < n
        invariant
            n == c.registries@.len(),
            i <= n,
            pv == pairs_v(c.registries@),
            pv.len() == n,
            map_remove(pv.subrange(0, i as int), name@) == pairs_v(kept@),
        decreases n - i,
    {
        let ghost pre = pv.subrange(0, i as int);
        let ghost prev = pairs_v(kept@);
        if !str_eq(c.registries[i].0.as_str(), name) {
            kept.push((c.registries[i].0.clone(), c.registries[i].1.clone()));
            proof {
                assert(pv[i as int].0 != name@);
                assert(pairs_v(kept@) =~= prev.push(pv[i as int]));
            }
        } else {
            proof {
                assert(pv[i as int].0 == name@);
            }
        }
        proof {
            let post = pv.subrange(0, i + 1 as int);
            assert(post.drop_last() =~= pre);
            assert(post.last() == pv[i as int]);
        }
        i = i + 1;
    }
    proof {
        assert(pv.subrange(0, n as int) =~= pv);
    }
    let mut c2 = c.duplicate();
    c2.registries = kept;
    Ok(c2)
}

// ---------------------------------------------------------------------------
// Configuration keys
// ---------------------------------------------------------------------------

/// The value of a dotted configuration key, when the key is known.
pub open spec fn spec_config_get(c: ConfigV, key: Seq<char>) -> Option<Seq<char>> {
    if key == "paii.version"@ {
        Some(c.version)
    } else if key == "paths.plugins"@ {
        Some(c.paths.plugins)
    } else if key == "paths.history"@ {
        Some(c.paths.history)
    } else if key == "paths.registries"@ {
        Some(c.paths.registries)
    } else if key == "defaults.language"@ {
        Some(c.defaults.language)
    } else if key == "defaults.log_level"@ {
        Some(c.defaults.log_level)
    } else if key == "hooks.security_enabled"@ {
        Some(bool_text(c.hooks.security_enabled))
    } else if key == "hooks.history_enabled"@ {
        Some(bool_text(c.hooks.history_enabled))
    } else {
        None
    }
}

/// A boolean as text.
pub open spec fn bool_text(b: bool) -> Seq<char> {
    if b {
        "true"@
    } else {
        "false"@
    }
}

/// A boolean as text.
pub fn bool_to_string(b: bool) -> (r: String)
    ensures
        r@ == bool_text(b),
{
    if b {
        String::from_str("true")
    } else {
        String::from_str("false")
    }
}

/// Reads one configuration value by dotted key.
pub fn config_get(c: &Config, key: &str) -> (r: Option<String>)
    ensures
        match r {
            Some(s) => spec_config_get(c@, key@) == Some(s@),
            None => spec_config_get(c@, key@) is None,
        },
{
    if str_eq(key, "paii.version") {
        Some(c.paii.version.clone())
    } else if str_eq(key, "paths.plugins") {
        Some(c.paths.plugins.clone())
    } else if str_eq(key, "paths.history") {
        Some(c.paths.history.clone())
    } else if str_eq(key, "paths.registries") {
        Some(c.paths.registries.clone())
    } else if str_eq(key, "defaults.language") {
        Some(c.defaults.language.clone())
    } else if str_eq(key, "defaults.log_level") {
        Some(c.defaults.log_level.clone())
    } else if str_eq(key, "hooks.security_enabled") {
        Some(bool_to_string(c.hooks.security_enabled))
    } else if str_eq(key, "hooks.history_enabled") {
        Some(bool_to_string(c.hooks.history_enabled))
    } else {
        None
    }
}

/// Boolean text, exactly `true` or `false`.
pub fn parse_bool(s: &str) -> (r: Option<bool>)
    ensures
        s@ == "true"@ ==> r == Some(true),
        s@ != "true"@ && s@ == "false"@ ==> r == Some(false),
        s@ != "true"@ && s@ != "false"@ ==> r is None,
{
    if str_eq(s, "true") {
        Some(true)
    } else if str_eq(s, "false") {
        Some(false)
    } else {
        None
    }
}

/// The configuration with one dotted key set to a value.
pub open spec fn spec_config_set(c: ConfigV, key: Seq<char>, value: Seq<char>) -> Result<ConfigV, ErrorV> {
    if key == "paii.version"@ {
        Ok(ConfigV { version: value, ..c })
    } else if key == "paths.plugins"@ {
        Ok(ConfigV { paths: PathsV { plugins: value, ..c.paths }, ..c })
    } else if key == "paths.history"@ {
        Ok(ConfigV { paths: PathsV { history: value, ..c.paths }, ..c })
    } else if key == "paths.registries"@ {
        Ok(ConfigV { paths: PathsV { registries: value, ..c.paths }, ..c })
    } else if key == "defaults.language"@ {
        Ok(ConfigV { defaults: DefaultsV { language: value, ..c.defaults }, ..c })
    } else if key == "defaults.log_level"@ {
        Ok(ConfigV { defaults: DefaultsV { log_level: value, ..c.defaults }, ..c })
    } else if key == "hooks.security_enabled"@ {
        if value == "true"@ || value == "false"@ {
            Ok(ConfigV {
                hooks: HooksConfig { security_enabled: value == "true"@, ..c.hooks },
                ..c
            })
        } else {
            Err(ErrorV::InvalidInput { context: key })
        }
    } else if key == "hooks.history_enabled"@ {
        if value == "true"@ || value == "false"@ {
            Ok(ConfigV {
                hooks: HooksConfig { history_enabled: value == "true"@, ..c.hooks },
                ..c
            })
        } else {
            Err(ErrorV::InvalidInput { context: key })
        }
    } else {
        Err(ErrorV::InvalidInput { context: key })
    }
}

/// Sets one configuration value by dotted key: an unknown key or a
/// malformed boolean is invalid input.
pub fn config_set(c: &Config, key: &str, value: &str) -> (r: Result<Config, CoreError>)
    ensures
        match r {
            Ok(c2) => spec_config_set(c@, key@, value@) == Ok::<ConfigV, ErrorV>(c2@),
            Err(e) => spec_config_set(c@, key@, value@) == Err::<ConfigV, ErrorV>(e@),
        },
{
    let mut c2 = c.duplicate();
    if str_eq(key, "paii.version") {
        c2.paii.version = String::from_str(value);
        Ok(c2)
    } else if str_eq(key, "paths.plugins") {
        c2.paths.plugins = String::from_str(value);
        Ok(c2)
    } else if str_eq(key, "paths.history") {
        c2.paths.history = String::from_str(value);
        Ok(c2)
    } else if str_eq(key, "paths.registries") {
        c2.paths.registries = String::from_str(value);
        Ok(c2)
    } else if str_eq(key, "defaults.language") {
        c2.defaults.language = String::from_str(value);
        Ok(c2)
    } else if str_eq(key, "defaults.log_level") {
        c2.defaults.log_level = String::from_str(value);
        Ok(c2)
    } else if str_eq(key, "hooks.security_enabled") {
        match parse_bool(value) {
            Some(b) => {
                c2.hooks.security_enabled = b;
                Ok(c2)
            },
            None => Err(CoreError::InvalidInput { context: String::from_str(key) }),
        }
    } else if str_eq(key, "hooks.history_enabled") {
        match parse_bool(value) {
            Some(b) => {
                c2.hooks.history_enabled = b;
                Ok(c2)
            },
            None => Err(CoreError::InvalidInput { context: String::from_str(key) }),
        }
    } else {
        Err(CoreError::InvalidInput { context: String::from_str(key) })
    }
}

// ---------------------------------------------------------------------------
// Loading
// ---------------------------------------------------------------------------

/// The candidate configuration files tried in order when no explicit path
/// is given: the file named by the environment, the file under the
/// environment's tool directory, the file under the platform configuration
/// directory, and a file in the working directory.  The first candidate
/// that exists and parses wins; a candidate that fails to parse is skipped
/// with a warning.
pub open spec fn spec_candidates(
    env_config: Option<Seq<char>>,
    env_dir: Option<Seq<char>>,
    config_base: Option<Seq<char>>,
) -> Seq<Seq<char>> {
    (match env_config {
        Some(p) => seq![p],
        None => Seq::empty(),
    }) + (match env_dir {
        Some(d) => seq![d + "/"@ + "paii.toml"@],
        None => Seq::empty(),
    }) + (match config_base {
        Some(b) => seq![b + "/"@ + "paii/paii.toml"@],
        None => Seq::empty(),
    }) + seq!["paii.toml"@]
}

/// The candidate configuration files, in the order they are tried.
pub fn config_candidates(
    env_config: Option<String>,
    env_dir: Option<String>,
    config_base: Option<String>,
) -> (r: Vec<String>)
    ensures
        crate::manifest::strs_view(r@) == spec_candidates(osv(env_config), osv(env_dir), osv(config_base)),
{
    let mut out: Vec<String> = Vec::new();
    match env_config {
        Some(p) => {
            out.push(p);
        },
        None => {},
    }
    match env_dir {
        Some(d) => {
            out.push(path_join(d.as_str(), "paii.toml"));
        },
        None => {},
    }
    match config_base {
        Some(b) => {
            out.push(path_join(b.as_str(), "paii/paii.toml"));
        },
        None => {},
    }
    out.push(String::from_str("paii.toml"));
    proof {
        assert(crate::manifest::strs_view(out@) =~= spec_candidates(
            osv(env_config),
            osv(env_dir),
            osv(config_base),
        ));
    }
    out
}

/// The string-to-string entries of a `registries` table; `None` when an
/// entry is no string.
pub open spec fn spec_parse_registries(e: Seq<(Seq<char>, DocV)>) -> Option<Seq<(Seq<char>, Seq<char>)>>
    decreases e.len(),
{
    if e.len() == 0 {
        Some(Seq::empty())
    } else {
        match spec_parse_registries(e.drop_last()) {
            None => None,
            Some(rest) => match e.last().1 {
                DocV::Str(u) => Some(rest.push((e.last().0, u))),
                _ => None,
            },
        }
    }
}

/// An entry that is no string rejects the table.
proof fn lemma_parse_registries_none(e: Seq<(Seq<char>, DocV)>, i: int)
    requires
        0 <= i < e.len(),
        !(e[i].1 is Str),
    ensures
        spec_parse_registries(e) is None,
    decreases e.len(),
{
    if i == e.len() - 1 {
        assert(e.last() == e[i]);
    } else {
        assert(e.drop_last()[i] == e[i]);
        lemma_parse_registries_none(e.drop_last(), i);
    }
}

/// Parses the entries of a `registries` table.
fn parse_registries_entries(e: &Vec<(String, DocValue)>) -> (r: Option<Vec<(String, String)>>)
    ensures
        match r {
            Some(v) => spec_parse_registries(ents_view(e@)) == Some(pairs_v(v@)),
            None => spec_parse_registries(ents_view(e@)) is None,
        },
{
    let ghost ev = ents_view(e@);
    proof {
        lemma_ents_view(e@);
    }
    let n = e.len();
    let mut out: Vec<(String, String)> = Vec::new();
    let mut i: usize = 0;
    proof {
        assert(ev.subrange(0, 0) =~= Seq::empty());
        assert(pairs_v(out@) =~= Seq::empty());
    }
    while i < n
        invariant
            n == e@.len(),
            i <= n,
            out@.len() == i,
            ev == ents_view(e@),
            ev.len() == n,
            forall|j: int| 0 <= j < n ==> ev[j] == (e@[j].0@, dv(e@[j].1)),
            spec_parse_registries(ev.subrange(0, i as int)) == Some(pairs_v(out@)),
        decreases n - i,
    {
        let ghost pre = ev.subrange(0, i as int);
        match &e[i].1 {
            DocValue::Str(u) => {
                let ghost prev = pairs_v(out@);
                out.push((e[i].0.clone(), u.clone()));
                proof {
                    let post = ev.subrange(0, i + 1 as int);
                    assert(post.drop_last() =~= pre);
                    assert(post.last() == ev[i as int]);
                    assert(pairs_v(out@) =~= prev.push((e@[i as int].0@, u@)));
                }
            },
            _ => {
                proof {
                    lemma_parse_registries_none(ev, i as int);
                }
                return None;
            },
        }
        i = i + 1;
    }
    proof {
        assert(ev.subrange(0, n as int) =~= ev);
    }
    Some(out)
}

/// Parsing a configuration document against an ambient default: a missing
/// section or field keeps the default's value; a present field must have
/// the right shape.  Unknown sections and fields are ignored.
pub open spec fn spec_parse_config(d: DocV, dflt: ConfigV) -> Result<ConfigV, Seq<char>> {
    match d {
        DocV::Table(t) => {
            let version = spec_section_str(t, "paii"@, "version"@, dflt.version);
            let plugins = spec_section_str(t, "paths"@, "plugins"@, dflt.paths.plugins);
            let history = spec_section_str(t, "paths"@, "history"@, dflt.paths.history);
            let registries_path = spec_section_str(t, "paths"@, "registries"@, dflt.paths.registries);
            let language = spec_section_str(t, "defaults"@, "language"@, dflt.defaults.language);
            let log_level = spec_section_str(t, "defaults"@, "log_level"@, dflt.defaults.log_level);
            let security = spec_section_bool(t, "hooks"@, "security_enabled"@, dflt.hooks.security_enabled);
            let history_en = spec_section_bool(t, "hooks"@, "history_enabled"@, dflt.hooks.history_enabled);
            if version is None {
                Err("paii"@)
            } else if plugins is None || history is None || registries_path is None {
                Err("paths"@)
            } else if language is None || log_level is None {
                Err("defaults"@)
            } else if security is None || history_en is None {
                Err("hooks"@)
            } else {
                match tbl_get(t, "registries"@) {
                    None => Ok(ConfigV {
                        version: version->0,
                        paths: PathsV {
                            plugins: plugins->0,
                            history: history->0,
                            registries: registries_path->0,
                        },
                        defaults: DefaultsV { language: language->0, log_level: log_level->0 },
                        registries: dflt.registries,
                        hooks: HooksConfig {
                            security_enabled: security->0,
                            history_enabled: history_en->0,
                        },
                    }),
                    Some(DocV::Table(re)) => match spec_parse_registries(re) {
                        Some(pairs) => Ok(ConfigV {
                            version: version->0,
                            paths: PathsV {
                                plugins: plugins->0,
                                history: history->0,
                                registries: registries_path->0,
                            },
                            defaults: DefaultsV { language: language->0, log_level: log_level->0 },
                            registries: pairs,
                            hooks: HooksConfig {
                                security_enabled: security->0,
                                history_enabled: history_en->0,
                            },
                        }),
                        None => Err("registries"@),
                    },
                    Some(_) => Err("registries"@),
                }
            }
        },
        _ => Err("document"@),
    }
}

/// A string field of a named section; a missing section or field keeps the
/// default, a present field of another shape is `None` (rejected).
pub open spec fn spec_section_str(
    t: Seq<(Seq<char>, DocV)>,
    section: Seq<char>,
    key: Seq<char>,
    dflt: Seq<char>,
) -> Option<Seq<char>> {
    match tbl_get(t, section) {
        None => Some(dflt),
        Some(DocV::Table(st)) => match tbl_get(st, key) {
            None => Some(dflt),
            Some(DocV::Str(s)) => Some(s),
            Some(_) => None,
        },
        Some(_) => None,
    }
}

/// A boolean field of a named section, like [`spec_section_str`].
pub open spec fn spec_section_bool(
    t: Seq<(Seq<char>, DocV)>,
    section: Seq<char>,
    key: Seq<char>,
    dflt: bool,
) -> Option<bool> {
    match tbl_get(t, section) {
        None => Some(dflt),
        Some(DocV::Table(st)) => match tbl_get(st, key) {
            None => Some(dflt),
            Some(DocV::Bool(b)) => Some(b),
            Some(_) => None,
        },
        Some(_) => None,
    }
}

/// Reads a string field of a named section.
fn read_section_str(t: &Vec<(String, DocValue)>, section: &str, key: &str, dflt: &String) -> (r: Option<
    String,
>)
    ensures
        match r {
            Some(s) => spec_section_str(ents_view(t@), section@, key@, dflt@) == Some(s@),
            None => spec_section_str(ents_view(t@), section@, key@, dflt@) is None,
        },
{
    match table_get(t, section) {
        None => Some(dflt.clone()),
        Some(v) => match v {
            DocValue::Table(st) => match table_get(st, key) {
                None => Some(dflt.clone()),
                Some(fv) => match fv {
                    DocValue::Str(s) => Some(s.clone()),
                    _ => None,
                },
            },
            _ => None,
        },
    }
}

/// Reads a boolean field of a named section.
fn read_section_bool(t: &Vec<(String, DocValue)>, section: &str, key: &str, dflt: bool) -> (r: Option<
    bool,
>)
    ensures
        match r {
            Some(b) => spec_section_bool(ents_view(t@), section@, key@, dflt) == Some(b),
            None => spec_section_bool(ents_view(t@), section@, key@, dflt) is None,
        },
{
    match table_get(t, section) {
        None => Some(dflt),
        Some(v) => match v {
            DocValue::Table(st) => match table_get(st, key) {
                None => Some(dflt),
                Some(fv) => match fv {
                    DocValue::Bool(b) => Some(*b),
                    _ => None,
                },
            },
            _ => None,
        },
    }
}

/// Parses a configuration document against an ambient default.
pub fn parse_config_doc(d: &DocValue, dflt: &Config) -> (r: Result<Config, ParseFailure>)
    ensures
        match r {
            Ok(c) => spec_parse_config(d@, dflt@) == Ok::<ConfigV, Seq<char>>(c@),
            Err(f) => spec_parse_config(d@, dflt@) == Err::<ConfigV, Seq<char>>(f@),
        },
{
    let t = match d {
        DocValue::Table(t) => t,
        _ => {
            return Err(ParseFailure { field: String::from_str("document") });
        },
    };
    let version = match read_section_str(t, "paii", "version", &dflt.paii.version) {
        Some(s) => s,
        None => {
            return Err(ParseFailure { field: String::from_str("paii") });
        },
    };
    let plugins = match read_section_str(t, "paths", "plugins", &dflt.paths.plugins) {
        Some(s) => s,
        None => {
            return Err(ParseFailure { field: String::from_str("paths") });
        },
    };
    let history = match read_section_str(t, "paths", "history", &dflt.paths.history) {
        Some(s) => s,
        None => {
            return Err(ParseFailure { field: String::from_str("paths") });
        },
    };
    let registries_path = match read_section_str(t, "paths", "registries", &dflt.paths.registries) {
        Some(s) => s,
        None => {
            return Err(ParseFailure { field: String::from_str("paths") });
        },
    };
    let language = match read_section_str(t, "defaults", "language", &dflt.defaults.language) {
        Some(s) => s,
        None => {
            return Err(ParseFailure { field: String::from_str("defaults") });
        },
    };
    let log_level = match read_section_str(t, "defaults", "log_level", &dflt.defaults.log_level) {
        Some(s) => s,
        None => {
            return Err(ParseFailure { field: String::from_str("defaults") });
        },
    };
    let security_enabled = match read_section_bool(t, "hooks", "security_enabled", dflt.hooks.security_enabled) {
        Some(b) => b,
        None => {
            return Err(ParseFailure { field: String::from_str("hooks") });
        },
    };
    let history_enabled = match read_section_bool(t, "hooks", "history_enabled", dflt.hooks.history_enabled) {
        Some(b) => b,
        None => {
            return Err(ParseFailure { field: String::from_str("hooks") });
        },
    };
    let registries = match table_get(t, "registries") {
        None => dup_pairs(&dflt.registries),
        Some(v) => match v {
            DocValue::Table(re) => match parse_registries_entries(re) {
                Some(pairs) => pairs,
                None => {
                    return Err(ParseFailure { field: String::from_str("registries") });
                },
            },
            _ => {
                return Err(ParseFailure { field: String::from_str("registries") });
            },
        },
    };
    Ok(Config {
        paii: PaiiConfig { version },
        paths: PathsConfig { plugins, history, registries: registries_path },
        defaults: DefaultsConfig { language, log_level },
        registries,
        hooks: HooksConfig { security_enabled, history_enabled },
    })
}

/// Parses a configuration from file text, against an ambient default.
pub fn parse_config_text(content: &str, dflt: &Config) -> (r: Result<Config, CoreError>)
    ensures
        match doc_of_text(content@) {
            None => (r matches Err(e) && e@ == (ErrorV::InvalidInput { context: "config document"@ })),
            Some(dm) => match spec_parse_config(dm, dflt@) {
                Ok(c) => (r matches Ok(rc) && rc@ == c),
                Err(f) => (r matches Err(e) && e@ == (ErrorV::InvalidInput { context: f })),
            },
        },
{
    let d = match parse_text(content) {
        Some(d) => d,
        None => {
            return Err(CoreError::InvalidInput { context: String::from_str("config document") });
        },
    };
    match parse_config_doc(&d, dflt) {
        Ok(c) => Ok(c),
        Err(f) => Err(CoreError::InvalidInput { context: f.field }),
    }
}

// ---------------------------------------------------------------------------
// Serialization
// ---------------------------------------------------------------------------

/// The serialized configuration document.
pub open spec fn spec_config_doc(c: ConfigV) -> DocV {
    DocV::Table(
        seq![
            ("paii"@, DocV::Table(seq![("version"@, DocV::Str(c.version))])),
            (
                "paths"@,
                DocV::Table(
                    seq![
                        ("plugins"@, DocV::Str(c.paths.plugins)),
                        ("history"@, DocV::Str(c.paths.history)),
                        ("registries"@, DocV::Str(c.paths.registries)),
                    ],
                ),
            ),
            (
                "defaults"@,
                DocV::Table(
                    seq![
                        ("language"@, DocV::Str(c.defaults.language)),
                        ("log_level"@, DocV::Str(c.defaults.log_level)),
                    ],
                ),
            ),
            ("registries"@, DocV::Table(Seq::new(c.registries.len(), |i: int| (c.registries[i].0, DocV::Str(c.registries[i].1))))),
            (
                "hooks"@,
                DocV::Table(
                    seq![
                        ("security_enabled"@, DocV::Bool(c.hooks.security_enabled)),
                        ("history_enabled"@, DocV::Bool(c.hooks.history_enabled)),
                    ],
                ),
            ),
        ],
    )
}

/// The serialized configuration document.
pub fn config_to_doc(c: &Config) -> (r: DocValue)
    ensures
        r@ == spec_config_doc(c@),
{
    let mut paii_t: Vec<(String, DocValue)> = Vec::new();
    paii_t.push((String::from_str("version"), DocValue::Str(c.paii.version.clone())));
    let mut paths_t: Vec<(String, DocValue)> = Vec::new();
    paths_t.push((String::from_str("plugins"), DocValue::Str(c.paths.plugins.clone())));
    paths_t.push((String::from_str("history"), DocValue::Str(c.paths.history.clone())));
    paths_t.push((String::from_str("registries"), DocValue::Str(c.paths.registries.clone())));
    let mut dflt_t: Vec<(String, DocValue)> = Vec::new();
    dflt_t.push((String::from_str("language"), DocValue::Str(c.defaults.language.clone())));
    dflt_t.push((String::from_str("log_level"), DocValue::Str(c.defaults.log_level.clone())));
    let n = c.registries.len();
    let mut regs_t: Vec<(String, DocValue)> = Vec::new();
    let mut i: usize = 0;
    while i < n
        invariant
            n == c.registries@.len(),
            i <= n,
            regs_t@.len() == i,
            forall|j: int| 0 <= j < i ==> regs_t@[j].0@ == c.registries@[j].0@ && regs_t@[j].1
                == DocValue::Str(c.registries@[j].1),
        decreases n - i,
    {
        regs_t.push((c.registries[i].0.clone(), DocValue::Str(c.registries[i].1.clone())));
        i = i + 1;
    }
    let mut hooks_t: Vec<(String, DocValue)> = Vec::new();
    hooks_t.push((String::from_str("security_enabled"), DocValue::Bool(c.hooks.security_enabled)));
    hooks_t.push((String::from_str("history_enabled"), DocValue::Bool(c.hooks.history_enabled)));
    proof {
        lemma_ents_view(paii_t@);
        assert(ents_view(paii_t@) =~= seq![("version"@, DocV::Str(c@.version))]);
        lemma_ents_view(paths_t@);
        assert(ents_view(paths_t@) =~= seq![
            ("plugins"@, DocV::Str(c@.paths.plugins)),
            ("history"@, DocV::Str(c@.paths.history)),
            ("registries"@, DocV::Str(c@.paths.registries)),
        ]);
        lemma_ents_view(dflt_t@);
        assert(ents_view(dflt_t@) =~= seq![
            ("language"@, DocV::Str(c@.defaults.language)),
            ("log_level"@, DocV::Str(c@.defaults.log_level)),
        ]);
        lemma_ents_view(regs_t@);
        assert(ents_view(regs_t@) =~= Seq::new(
            c@.registries.len(),
            |j: int| (c@.registries[j].0, DocV::Str(c@.registries[j].1)),
        ));
        lemma_ents_view(hooks_t@);
        assert(ents_view(hooks_t@) =~= seq![
            ("security_enabled"@, DocV::Bool(c@.hooks.security_enabled)),
            ("history_enabled"@, DocV::Bool(c@.hooks.history_enabled)),
        ]);
    }
    let mut out: Vec<(String, DocValue)> = Vec::new();
    out.push((String::from_str("paii"), DocValue::Table(paii_t)));
    out.push((String::from_str("paths"), DocValue::Table(paths_t)));
    out.push((String::from_str("defaults"), DocValue::Table(dflt_t)));
    out.push((String::from_str("registries"), DocValue::Table(regs_t)));
    out.push((String::from_str("hooks"), DocValue::Table(hooks_t)));
    proof {
        lemma_ents_view(out@);
        assert(ents_view(out@) =~= spec_config_doc(c@)->Table_0);
    }
    DocValue::Table(out)
}

impl Config {
    /// Renders the configuration as document text; rendering always
    /// succeeds, the document being a table.
    pub fn serialize(&self) -> (r: Option<String>)
        ensures
            r matches Some(s) && s@ == text_of_doc(spec_config_doc(self@)),
    {
        let d = config_to_doc(self);
        proof {
            assert(d@ is Table);
        }
        render_doc(&d)
    }
}

} // verus!
