//! The naming rules of backups and exports, and importing.
use vstd::prelude::*;
use crate::plugin::InstalledPlugin;
use crate::text::{concat3, replace_char, replace_char_in};

verus! {

/// Why a plugin operation failed.
#[derive(Clone, Debug)]
pub enum OperationError {
    /// The operation is not available.
    NotImplemented,
}

/// The name of the folder that a backup of the plugin `name` goes to: the name
/// with spaces turned into underscores, an underscore, and the timestamp.
pub open spec fn backup_folder_name_of(name: Seq<char>, timestamp: Seq<char>) -> Seq<char> {
    replace_char(name, ' ', '_') + "_"@ + timestamp
}

/// The name of the folder that an export of the plugin `name` goes to.
pub open spec fn export_folder_name_of(name: Seq<char>) -> Seq<char> {
    replace_char(name, ' ', '_') + "_export"@
}

/// The backup folder name of the plugin `name` made at `timestamp`
/// (formatted `%Y%m%d_%H%M%S`).
pub fn backup_folder_name(name: &str, timestamp: &str) -> (r: String)
    ensures
        r@ == backup_folder_name_of(name@, timestamp@),
{
    let base = replace_char_in(name, ' ', '_');
    concat3(base.as_str(), "_", timestamp)
}

/// The export folder name of the plugin `name`.
pub fn export_folder_name(name: &str) -> (r: String)
    ensures
        r@ == export_folder_name_of(name@),
{
    let base = replace_char_in(name, ' ', '_');
    crate::text::concat(base.as_str(), "_export")
}

/// Restoring a plugin from an export package is not available: every call fails.
pub fn import_plugin(_package_path: &str) -> (r: Result<InstalledPlugin, OperationError>)
    ensures
        r matches Err(OperationError::NotImplemented),
{
    Err(OperationError::NotImplemented)
}

} // verus!
