//! The plugin loader: a plugin value is a parsed manifest together with the
//! canonical path it was loaded from.  It is re-created fresh every time a
//! plugin is referenced and never cached across invocations.

use vstd::prelude::*;
use crate::codec::doc_of_text;
use crate::errors::{CoreError, ErrorV};
use crate::manifest::{spec_parse_manifest, ManifestV, PluginManifest, PluginLanguage};
use crate::strutil::{str_concat, str_eq};

verus! {

/// Spec shape of [`Plugin`].
pub struct PluginV {
    pub manifest: ManifestV,
    pub path: Seq<char>,
}

/// A loaded plugin: its manifest and the path it was loaded from.
#[derive(Debug)]
pub struct Plugin {
    pub manifest: PluginManifest,
    pub path: String,
}

impl View for Plugin {
    type V = PluginV;

    open spec fn view(&self) -> PluginV {
        PluginV { manifest: self.manifest@, path: self.path@ }
    }
}

/// Loads a plugin from a directory: `descriptor` is the descriptor file's
/// text when the file exists under the path.  An absent descriptor is the
/// sole marker of a non-plugin directory and fails as not-found; a
/// descriptor that does not parse fails as invalid, naming the path and the
/// offending field.  A pure computation, no side effects.
pub fn load_plugin_from(path: &str, descriptor: Option<&str>) -> (r: Result<Plugin, CoreError>)
    ensures
        match descriptor {
            None => (r matches Err(e) && e@ == (ErrorV::NotFound { context: path@ })),
            Some(content) => match doc_of_text(content@) {
                None => (r matches Err(e) && e@ == (ErrorV::InvalidInput {
                    context: path@ + ": "@ + "manifest document"@,
                })),
                Some(dm) => match spec_parse_manifest(dm) {
                    Ok(m) => (r matches Ok(p) && p@.manifest == m && p@.path == path@),
                    Err(f) => (r matches Err(e) && e@ == (ErrorV::InvalidInput {
                        context: path@ + ": "@ + f,
                    })),
                },
            },
        },
{
    let content = match descriptor {
        Some(c) => c,
        None => {
            return Err(CoreError::NotFound { context: String::from_str(path) });
        },
    };
    match PluginManifest::from_str(content) {
        Ok(m) => Ok(Plugin { manifest: m, path: String::from_str(path) }),
        Err(e) => {
            let prefix = str_concat(path, ": ");
            let context = str_concat(prefix.as_str(), e.context().as_str());
            Err(CoreError::InvalidInput { context })
        },
    }
}

/// The spec value of a sequence of plugins.
pub open spec fn plugins_v(v: Seq<Plugin>) -> Seq<PluginV> {
    Seq::new(v.len(), |i: int| v[i]@)
}

/// The first loaded plugin whose manifest carries the name, in order.
pub fn find_by_name(plugins: &Vec<Plugin>, name: &str) -> (r: Option<usize>)
    ensures
        match r {
            Some(i) => i < plugins@.len() && plugins@[i as int]@.manifest.plugin.name == name@ && forall|
                j: int,
            |
                0 <= j < i ==> plugins@[j]@.manifest.plugin.name != name@,
            None => forall|j: int| 0 <= j < plugins@.len() ==> plugins@[j]@.manifest.plugin.name != name@,
        },
{
    let n = plugins.len();
    let mut i: usize = 0;
    while i < n
        invariant
            n == plugins@.len(),
            i <= n,
            forall|j: int| 0 <= j < i ==> plugins@[j]@.manifest.plugin.name != name@,
        decreases n - i,
    {
        if str_eq(plugins[i].manifest.plugin.name.as_str(), name) {
            return Some(i);
        }
        i = i + 1;
    }
    None
}

/// The file whose presence a verification of an installed plugin checks,
/// relative to the plugin path: the interpreted entry script for an
/// interpreted plugin, the build manifest for a compiled one, nothing for a
/// mixed one.
pub fn expected_entry_file(lang: PluginLanguage) -> (r: Option<&'static str>)
    ensures
        lang == PluginLanguage::Python ==> (r matches Some(s) && s@ == "src/main.py"@),
        lang == PluginLanguage::Rust ==> (r matches Some(s) && s@ == "Cargo.toml"@),
        lang == PluginLanguage::Mixed ==> r is None,
{
    match lang {
        PluginLanguage::Python => Some("src/main.py"),
        PluginLanguage::Rust => Some("Cargo.toml"),
        PluginLanguage::Mixed => None,
    }
}

} // verus!
