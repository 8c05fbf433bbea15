//! The installer: a state machine per plugin name over the installed store.
//!
//! A plugin name is either absent from the store, installed as a copied
//! directory, or installed as a symbolic link (a dev install).  Every
//! lifecycle operation is decided here as a plan of filesystem actions; the
//! driver around the library performs the actions in order and never decides
//! on its own.

use vstd::prelude::*;
use crate::errors::{CoreError, ErrorV};
use crate::registry::{cache_lookup, spec_cache_lookup, files_v, EntryV, RegistryEntry};
use crate::strutil::{has_char, path_join, str_eq, str_has_char};

verus! {

/// What the store holds under a plugin's name.
#[derive(Debug, Clone, Copy, PartialEq, Eq, Structural)]
pub enum StoreState {
    /// Nothing is installed under the name.
    Absent,
    /// A copied directory is installed.
    InstalledCopy,
    /// A symbolic link to an external tree is installed.
    InstalledSymlink,
}

/// What an install source string denotes.
#[derive(Debug, Clone, Copy, PartialEq, Eq, Structural)]
pub enum SourceKind {
    /// An existing local path: install from it.
    LocalPath,
    /// A bare name: look it up in the cached registries.
    RegistryName,
    /// Neither an existing path nor a bare name: rejected.
    Ambiguous,
}

/// How a prior installation is removed.
#[derive(Debug, Clone, Copy, PartialEq, Eq, Structural)]
pub enum RemoveKind {
    /// Delete the link only; the tree it points to is never touched.
    Unlink,
    /// Delete the installed directory tree.
    DeleteTree,
}

/// How the new installation is materialized.
#[derive(Debug, Clone, Copy, PartialEq, Eq, Structural)]
pub enum InstallMethod {
    /// Link the destination to the canonicalized source tree.
    Symlink,
    /// Copy the source tree, skipping build-artifact and hidden directories.
    CopyTree,
}

/// The plan of one local install: an optional removal of what is there,
/// then the new installation.
#[derive(Debug, Clone, Copy, PartialEq, Eq, Structural)]
pub struct InstallPlan {
    pub pre_remove: Option<RemoveKind>,
    pub method: InstallMethod,
}

/// The store state a plan leaves behind once performed.
pub open spec fn plan_result_state(p: InstallPlan) -> StoreState {
    match p.method {
        InstallMethod::Symlink => StoreState::InstalledSymlink,
        InstallMethod::CopyTree => StoreState::InstalledCopy,
    }
}

/// What an install source string denotes: an existing path is installed
/// from; a bare name (no path separator) is resolved through the cached
/// registries; anything else is ambiguous.
pub open spec fn spec_source_kind(source: Seq<char>, exists_as_path: bool) -> SourceKind {
    if exists_as_path {
        SourceKind::LocalPath
    } else if !has_char(source, '/') && !has_char(source, '\\') {
        SourceKind::RegistryName
    } else {
        SourceKind::Ambiguous
    }
}

/// Classifies an install source string.
pub fn classify_install_source(source: &str, exists_as_path: bool) -> (r: SourceKind)
    ensures
        r == spec_source_kind(source@, exists_as_path),
{
    if exists_as_path {
        SourceKind::LocalPath
    } else if !str_has_char(source, '/') && !str_has_char(source, '\\') {
        SourceKind::RegistryName
    } else {
        SourceKind::Ambiguous
    }
}

/// The install decision over the store state: an occupied name without
/// `force` is a collision; with `force` the prior installation is removed
/// first, a link by unlinking and a directory by recursive deletion.
pub open spec fn spec_install(state: StoreState, dev: bool, force: bool, name: Seq<char>) -> Result<
    InstallPlan,
    ErrorV,
> {
    let method = if dev {
        InstallMethod::Symlink
    } else {
        InstallMethod::CopyTree
    };
    match state {
        StoreState::Absent => Ok(InstallPlan { pre_remove: None, method }),
        StoreState::InstalledCopy => if force {
            Ok(InstallPlan { pre_remove: Some(RemoveKind::DeleteTree), method })
        } else {
            Err(ErrorV::AlreadyExists { context: name })
        },
        StoreState::InstalledSymlink => if force {
            Ok(InstallPlan { pre_remove: Some(RemoveKind::Unlink), method })
        } else {
            Err(ErrorV::AlreadyExists { context: name })
        },
    }
}

/// Decides one local install against the current store state.
pub fn install_transition(state: StoreState, dev: bool, force: bool, name: &str) -> (r: Result<
    InstallPlan,
    CoreError,
>)
    ensures
        match r {
            Ok(p) => spec_install(state, dev, force, name@) == Ok::<InstallPlan, ErrorV>(p),
            Err(e) => spec_install(state, dev, force, name@) == Err::<InstallPlan, ErrorV>(e@),
        },
{
    let method = if dev {
        InstallMethod::Symlink
    } else {
        InstallMethod::CopyTree
    };
    match state {
        StoreState::Absent => Ok(InstallPlan { pre_remove: None, method }),
        StoreState::InstalledCopy => if force {
            Ok(InstallPlan { pre_remove: Some(RemoveKind::DeleteTree), method })
        } else {
            Err(CoreError::AlreadyExists { context: String::from_str(name) })
        },
        StoreState::InstalledSymlink => if force {
            Ok(InstallPlan { pre_remove: Some(RemoveKind::Unlink), method })
        } else {
            Err(CoreError::AlreadyExists { context: String::from_str(name) })
        },
    }
}

/// The destination of an installed plugin within the store.
pub fn install_dest(store_root: &str, plugin_name: &str) -> (r: String)
    ensures
        r@ == store_root@ + "/"@ + plugin_name@,
{
    path_join(store_root, plugin_name)
}

/// The removal decision: an absent name is not found; a link is unlinked
/// only, never following it into the tree it points to; a directory is
/// deleted recursively.  The `force` flag is accepted for future
/// dependent-plugin tracking and has no effect today.
pub open spec fn spec_remove(state: StoreState, name: Seq<char>) -> Result<RemoveKind, ErrorV> {
    match state {
        StoreState::Absent => Err(ErrorV::NotFound { context: name }),
        StoreState::InstalledCopy => Ok(RemoveKind::DeleteTree),
        StoreState::InstalledSymlink => Ok(RemoveKind::Unlink),
    }
}

/// Decides one removal against the current store state.  `force` has no
/// enforcement effect; it is accepted for compatibility.
pub fn remove_transition(state: StoreState, force: bool, name: &str) -> (r: Result<RemoveKind, CoreError>)
    ensures
        match r {
            Ok(k) => spec_remove(state, name@) == Ok::<RemoveKind, ErrorV>(k),
            Err(e) => spec_remove(state, name@) == Err::<RemoveKind, ErrorV>(e@),
        },
{
    let _ = force;
    match state {
        StoreState::Absent => Err(CoreError::NotFound { context: String::from_str(name) }),
        StoreState::InstalledCopy => Ok(RemoveKind::DeleteTree),
        StoreState::InstalledSymlink => Ok(RemoveKind::Unlink),
    }
}

/// A directory that is never copied into the store: the build-output
/// directory and hidden directories (version-control metadata among them).
pub open spec fn spec_skip_dir(name: Seq<char>) -> bool {
    name == "target"@ || (name.len() > 0 && name[0] == '.')
}

/// Whether a directory is skipped while copying a source tree.
pub fn should_skip_dir(name: &str) -> (r: bool)
    ensures
        r == spec_skip_dir(name@),
{
    if str_eq(name, "target") {
        return true;
    }
    if name.unicode_len() > 0 && name.get_char(0) == '.' {
        return true;
    }
    false
}

// ---------------------------------------------------------------------------
// Update decision
// ---------------------------------------------------------------------------

/// Spec shape of [`UpdateDecision`].
pub enum UpdateDecisionV {
    NotInstalled,
    DevInstall,
    NoRegistryEntry,
    AlreadyCurrent,
    Reinstall { new_version: Seq<char> },
}

/// What the update of an installed plugin does.
#[derive(Debug, Clone)]
pub enum UpdateDecision {
    /// The plugin is not installed: the update fails.
    NotInstalled,
    /// A dev install is never updated in place: the operator edits the
    /// linked source directly, and the link is left untouched.
    DevInstall,
    /// No cached registry knows the name: a newer version cannot be
    /// determined; reported as informational, not a failure.
    NoRegistryEntry,
    /// The cached version equals the installed one.
    AlreadyCurrent,
    /// A different version is cached: reinstall from the registry, forced.
    Reinstall { new_version: String },
}

impl View for UpdateDecision {
    type V = UpdateDecisionV;

    open spec fn view(&self) -> UpdateDecisionV {
        match self {
            UpdateDecision::NotInstalled => UpdateDecisionV::NotInstalled,
            UpdateDecision::DevInstall => UpdateDecisionV::DevInstall,
            UpdateDecision::NoRegistryEntry => UpdateDecisionV::NoRegistryEntry,
            UpdateDecision::AlreadyCurrent => UpdateDecisionV::AlreadyCurrent,
            UpdateDecision::Reinstall { new_version } => UpdateDecisionV::Reinstall {
                new_version: new_version@,
            },
        }
    }
}

/// The version label of a registry entry; an entry without one reads
/// `unknown`.
pub open spec fn entry_version_label(e: EntryV) -> Seq<char> {
    match e.version {
        Some(v) => v,
        None => "unknown"@,
    }
}

/// The update decision: not installed fails; a dev symlink is left alone by
/// design; an unknown name is informational; otherwise the cached version
/// decides between already-current and a forced reinstall.
pub open spec fn spec_update_decision(
    installed: bool,
    is_symlink: bool,
    current_version: Seq<char>,
    entry: Option<EntryV>,
) -> UpdateDecisionV {
    if !installed {
        UpdateDecisionV::NotInstalled
    } else if is_symlink {
        UpdateDecisionV::DevInstall
    } else {
        match entry {
            None => UpdateDecisionV::NoRegistryEntry,
            Some(e) => if entry_version_label(e) == current_version {
                UpdateDecisionV::AlreadyCurrent
            } else {
                UpdateDecisionV::Reinstall { new_version: entry_version_label(e) }
            },
        }
    }
}

/// Decides what updating a plugin does.
pub fn plan_update(
    installed: bool,
    is_symlink: bool,
    current_version: &str,
    entry: &Option<RegistryEntry>,
) -> (r: UpdateDecision)
    ensures
        r@ == spec_update_decision(
            installed,
            is_symlink,
            current_version@,
            match entry {
                Some(e) => Some(e@),
                None => None,
            },
        ),
{
    if !installed {
        return UpdateDecision::NotInstalled;
    }
    if is_symlink {
        return UpdateDecision::DevInstall;
    }
    match entry {
        None => UpdateDecision::NoRegistryEntry,
        Some(e) => {
            let label = match &e.version {
                Some(v) => v.clone(),
                None => String::from_str("unknown"),
            };
            if str_eq(label.as_str(), current_version) {
                UpdateDecision::AlreadyCurrent
            } else {
                UpdateDecision::Reinstall { new_version: label }
            }
        },
    }
}

// ---------------------------------------------------------------------------
// Registry-mediated install
// ---------------------------------------------------------------------------

/// Spec shape of [`ClonePlan`].
pub struct ClonePlanV {
    pub url: Seq<char>,
    pub subpath: Seq<char>,
    pub registry: Seq<char>,
    pub version_label: Seq<char>,
}

/// The plan of a registry-mediated install: shallow-clone `url` into a
/// process-scoped temporary directory, resolve `subpath` inside the clone
/// (the clone root when empty), then copy-install from there with `dev`
/// forced off.  The temporary directory is removed on every exit path.
#[derive(Debug, Clone)]
pub struct ClonePlan {
    pub url: String,
    pub subpath: String,
    pub registry: String,
    pub version_label: String,
}

impl View for ClonePlan {
    type V = ClonePlanV;

    open spec fn view(&self) -> ClonePlanV {
        ClonePlanV {
            url: self.url@,
            subpath: self.subpath@,
            registry: self.registry@,
            version_label: self.version_label@,
        }
    }
}

/// The registry-install decision over the cached files: no cache at all
/// fails; a cache file that does not parse before a match is fatal, naming
/// its registry; an unknown name fails with a hint towards search; an entry
/// without a source URL cannot be cloned; otherwise the clone plan is
/// returned.  The first file holding the name wins, in enumeration order,
/// and later files are never read.
pub open spec fn spec_plan_registry_install(
    cache_present: bool,
    files: Seq<(Seq<char>, Seq<char>)>,
    name: Seq<char>,
) -> Result<ClonePlanV, ErrorV> {
    if !cache_present {
        Err(ErrorV::NotFound { context: "registry cache"@ })
    } else {
        match spec_cache_lookup(files, name, 0) {
            Err(registry) => Err(ErrorV::InvalidInput { context: registry }),
            Ok(None) => Err(ErrorV::NotFound { context: name }),
            Ok(Some((registry, e))) => match e.source {
                None => Err(ErrorV::InvalidInput { context: name }),
                Some(url) => Ok(ClonePlanV {
                    url,
                    subpath: match e.path {
                        Some(p) => p,
                        None => Seq::empty(),
                    },
                    registry,
                    version_label: entry_version_label(e),
                }),
            },
        }
    }
}

/// Decides a registry-mediated install from the cached files, each given as
/// its registry name with its document text.
pub fn plan_registry_install(
    cache_present: bool,
    files: &Vec<(String, String)>,
    name: &str,
) -> (r: Result<ClonePlan, CoreError>)
    ensures
        match r {
            Ok(p) => spec_plan_registry_install(cache_present, files_v(files@), name@) == Ok::<
                ClonePlanV,
                ErrorV,
            >(p@),
            Err(e) => spec_plan_registry_install(cache_present, files_v(files@), name@) == Err::<
                ClonePlanV,
                ErrorV,
            >(e@),
        },
{
    if !cache_present {
        return Err(CoreError::NotFound { context: String::from_str("registry cache") });
    }
    match cache_lookup(files, name) {
        Err(e) => Err(e),
        Ok(None) => Err(CoreError::NotFound { context: String::from_str(name) }),
        Ok(Some((registry, e))) => {
            let url = match &e.source {
                Some(u) => u.clone(),
                None => {
                    return Err(CoreError::InvalidInput { context: String::from_str(name) });
                },
            };
            let subpath = match &e.path {
                Some(p) => p.clone(),
                None => String::new(),
            };
            let version_label = match &e.version {
                Some(v) => v.clone(),
                None => String::from_str("unknown"),
            };
            Ok(ClonePlan { url, subpath, registry, version_label })
        },
    }
}

/// Resolves the plugin's location inside a finished clone: the clone root
/// for an empty subpath, else the joined path, which must exist.
pub fn resolve_clone_dir(clone_root: &str, subpath: &str, subpath_exists: bool) -> (r: Result<
    String,
    CoreError,
>)
    ensures
        match r {
            Ok(p) => (subpath@.len() == 0 && p@ == clone_root@) || (subpath@.len() > 0 && subpath_exists
                && p@ == clone_root@ + "/"@ + subpath@),
            Err(e) => subpath@.len() > 0 && !subpath_exists && e@ == (ErrorV::NotFound {
                context: subpath@,
            }),
        },
{
    if subpath.unicode_len() == 0 {
        Ok(String::from_str(clone_root))
    } else if subpath_exists {
        Ok(path_join(clone_root, subpath))
    } else {
        Err(CoreError::NotFound { context: String::from_str(subpath) })
    }
}

// ---------------------------------------------------------------------------
// Laws of the store state machine
// ---------------------------------------------------------------------------

/// Installing twice without `force` fails the second time with a collision,
/// whatever the second call's `dev` flag; with `force` the second call
/// succeeds and replaces the destination's contents.
pub proof fn lemma_install_twice(name: Seq<char>, dev2: bool)
    ensures
        spec_install(StoreState::Absent, false, false, name) == Ok::<InstallPlan, ErrorV>(
            InstallPlan { pre_remove: None, method: InstallMethod::CopyTree },
        ),
        plan_result_state(InstallPlan { pre_remove: None, method: InstallMethod::CopyTree })
            == StoreState::InstalledCopy,
        spec_install(StoreState::InstalledCopy, dev2, false, name) == Err::<InstallPlan, ErrorV>(
            ErrorV::AlreadyExists { context: name },
        ),
        spec_install(StoreState::InstalledCopy, false, true, name) == Ok::<InstallPlan, ErrorV>(
            InstallPlan { pre_remove: Some(RemoveKind::DeleteTree), method: InstallMethod::CopyTree },
        ),
{
}

/// A dev install creates a symbolic link, and removing it afterwards only
/// unlinks: the linked source tree is never deleted.
pub proof fn lemma_dev_install_then_remove(name: Seq<char>, force: bool)
    ensures
        spec_install(StoreState::Absent, true, force, name) == Ok::<InstallPlan, ErrorV>(
            InstallPlan { pre_remove: None, method: InstallMethod::Symlink },
        ),
        plan_result_state(InstallPlan { pre_remove: None, method: InstallMethod::Symlink })
            == StoreState::InstalledSymlink,
        spec_remove(StoreState::InstalledSymlink, name) == Ok::<RemoveKind, ErrorV>(RemoveKind::Unlink),
{
}

/// Updating a symlinked installation decides to do nothing at all: the
/// decision carries no action, whatever the registries hold.
pub proof fn lemma_update_dev_noop(current_version: Seq<char>, entry: Option<EntryV>)
    ensures
        spec_update_decision(true, true, current_version, entry) == UpdateDecisionV::DevInstall,
{
}

} // verus!
