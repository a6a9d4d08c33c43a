//! Discovery and reconciliation of installed audio plugins.
//!
//! The library lists plugin bundles and files under the configured roots,
//! derives their identities, looks for related content and icons, shares
//! icons across formats and reports leftover entries. All filesystem access
//! stays with the caller: the functions here take directory listings and
//! probe results as plain values and return plain values.
pub mod boundary;
pub mod cache;
pub mod discovery;
pub mod names;
pub mod operations;
pub mod plugin;
pub mod profile;
pub mod registry;
pub mod related;
pub mod scanner;
pub mod sharing;
pub mod text;

pub use plugin::{InstalledPlugin, License, Plugin, PluginFormat, PluginMetadata, RelatedPaths, Vendor};
