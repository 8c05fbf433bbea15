//! The command surface of the tool, as plain data.
//!
//! The argument parser of the driver produces these values; every command
//! handler consumes them.  Paths travel as strings.

use vstd::prelude::*;

verus! {

/// Output format for commands.
#[derive(Debug, Clone, Copy, PartialEq, Eq, Structural)]
pub enum OutputFormat {
    /// Human-readable text.
    Text,
    /// JSON.
    Json,
    /// YAML.
    Yaml,
}

impl OutputFormat {
    /// The effective output format: an explicit choice wins; otherwise a
    /// terminal gets text and a pipe gets JSON.
    pub fn resolve(user_choice: Option<OutputFormat>, stdout_is_terminal: bool) -> (r: OutputFormat)
        ensures
            r == (match user_choice {
                Some(f) => f,
                None => if stdout_is_terminal {
                    OutputFormat::Text
                } else {
                    OutputFormat::Json
                },
            }),
    {
        match user_choice {
            Some(f) => f,
            None => if stdout_is_terminal {
                OutputFormat::Text
            } else {
                OutputFormat::Json
            },
        }
    }
}

/// Plugin lifecycle commands.
#[derive(Debug, Clone)]
pub enum PluginAction {
    /// List installed plugins.
    List { format: Option<OutputFormat> },
    /// Install a plugin from a path or a registry name.
    Install { source: String, dev: bool, force: bool },
    /// Remove an installed plugin.
    Remove { name: String, force: bool },
    /// Update an installed plugin from the registries.
    Update { name: String },
    /// Show plugin details.
    Info { name: String },
    /// Create a new plugin scaffold.
    New { name: String, language: String, plugin_type: String, path: Option<String> },
    /// Verify an installed plugin.
    Verify { name: String },
}

/// Hook commands.
#[derive(Debug, Clone)]
pub enum HookAction {
    /// Dispatch a hook event to handlers; the payload is read from standard
    /// input when not given.
    Dispatch { event: String, payload: Option<String> },
    /// List registered hook handlers.
    List { event: Option<String> },
}

/// History commands.
#[derive(Debug, Clone)]
pub enum HistoryAction {
    /// Search history.
    Query {
        query: String,
        category: Option<String>,
        limit: usize,
        since: Option<String>,
        format: Option<OutputFormat>,
    },
    /// Show recent entries.
    Recent { category: Option<String>, count: usize },
    /// List available categories.
    Categories,
}

/// Configuration commands.
#[derive(Debug, Clone)]
pub enum ConfigAction {
    /// Show the current configuration.
    Show { format: Option<OutputFormat> },
    /// Get one configuration value by dotted key.
    Get { key: String },
    /// Set one configuration value by dotted key.
    Assign { key: String, value: String },
}

/// Registry commands.
#[derive(Debug, Clone)]
pub enum RegistryAction {
    /// List configured registries.
    List,
    /// Add a registry.
    Add { name: String, url: String },
    /// Remove a registry.
    Remove { name: String },
    /// Update cached listings, of one registry or of all.
    Update { name: Option<String> },
    /// Search cached listings.
    Search { query: String, format: Option<OutputFormat> },
    /// Show all plugins of one cached registry.
    Show { name: String, format: Option<OutputFormat> },
}

} // verus!
