//! Plugin lifecycle manager and cross-language execution dispatcher for a
//! local coding-agent runtime.
//!
//! The crate models plugin manifests, cached registry listings, the installed
//! plugin store and the execution dispatcher as plain data, and verifies the
//! decision logic of every lifecycle operation.  Filesystem access, process
//! spawning and network fetches are performed by the thin driver around the
//! library; the library decides what those effects must be.

pub mod cli;
pub mod codec;
pub mod config;
pub mod dispatch;
pub mod doc;
pub mod errors;
pub mod hook;
pub mod installer;
pub mod loader;
pub mod manifest;
pub mod registry;
pub mod scaffold;
pub mod strutil;
