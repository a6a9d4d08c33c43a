//! Owned snapshots of scan results for a caller on the other side of a language boundary.
use vstd::prelude::*;
use crate::plugin::{InstalledPlugin, PluginFormat};

verus! {

/// A list of plugins, owned by whoever holds it.
#[derive(Debug)]
pub struct CPluginList {
    plugins: Vec<InstalledPlugin>,
}

impl CPluginList {
    /// The plugins in the list, in order.
    pub closed spec fn items(&self) -> Seq<InstalledPlugin> {
        self.plugins@
    }

    pub fn new(plugins: Vec<InstalledPlugin>) -> (r: CPluginList)
        ensures
            r.items() == plugins@,
    {
        CPluginList { plugins }
    }

    /// The number of plugins.
    pub fn count(&self) -> (r: usize)
        ensures
            r == self.items().len(),
    {
        self.plugins.len()
    }

    /// The plugin at `index`, or `None` past the end.
    pub fn get(&self, index: usize) -> (r: Option<&InstalledPlugin>)
        ensures
            index < self.items().len() ==> r == Some(&self.items()[index as int]),
            index >= self.items().len() ==> r.is_none(),
    {
        if index < self.plugins.len() {
            Some(&self.plugins[index])
        } else {
            None
        }
    }
}

/// A list of paths, owned by whoever holds it.
#[derive(Debug)]
pub struct CPathList {
    paths: Vec<String>,
}

impl CPathList {
    /// The paths in the list, in order.
    pub closed spec fn items(&self) -> Seq<Seq<char>> {
        self.paths.deep_view()
    }

    pub fn new(paths: Vec<String>) -> (r: CPathList)
        ensures
            r.items() == paths.deep_view(),
    {
        CPathList { paths }
    }

    /// The number of paths.
    pub fn count(&self) -> (r: usize)
        ensures
            r == self.items().len(),
    {
        self.paths.len()
    }

    /// The path at `index`, or `None` past the end.
    pub fn get(&self, index: usize) -> (r: Option<&String>)
        ensures
            index < self.items().len() ==> r.is_some() && r.unwrap()@ == self.items()[index as int],
            index >= self.items().len() ==> r.is_none(),
    {
        if index < self.paths.len() {
            Some(&self.paths[index])
        } else {
            None
        }
    }
}

/// The outcome of an operation as a status code.
#[derive(Clone, Copy, Debug, PartialEq, Eq, Structural)]
pub enum CResultCode {
    Success,
    Error,
}

impl CResultCode {
    /// `Success` for a successful outcome, `Error` otherwise.
    pub fn from_outcome(ok: bool) -> (r: CResultCode)
        ensures
            ok ==> r == CResultCode::Success,
            !ok ==> r == CResultCode::Error,
    {
        if ok {
            CResultCode::Success
        } else {
            CResultCode::Error
        }
    }

    /// The numeric code: 0 for success, 1 for an error.
    pub fn code(&self) -> (r: i32)
        ensures
            *self == CResultCode::Success ==> r == 0,
            *self == CResultCode::Error ==> r == 1,
    {
        match self {
            CResultCode::Success => 0,
            CResultCode::Error => 1,
        }
    }
}

/// The number that stands for a format: 0 for VST2, 1 for VST3, 2 for AU, 3 for AAX.
pub open spec fn format_code(format: PluginFormat) -> i32 {
    match format {
        PluginFormat::VST2 => 0,
        PluginFormat::VST3 => 1,
        PluginFormat::AU => 2,
        PluginFormat::AAX => 3,
    }
}

pub fn format_to_int(format: PluginFormat) -> (r: i32)
    ensures
        r == format_code(format),
{
    match format {
        PluginFormat::VST2 => 0,
        PluginFormat::VST3 => 1,
        PluginFormat::AU => 2,
        PluginFormat::AAX => 3,
    }
}

/// A flat, by-value summary of one plugin.
#[derive(Clone, Debug)]
pub struct CPlugin {
    pub id: String,
    pub name: String,
    pub version: String,
    pub description: Option<String>,
    pub install_path: String,
    /// See [`format_to_int`].
    pub format: i32,
    pub preset_count: usize,
    pub library_count: usize,
    pub preference_count: usize,
    /// The plugin's icon URL, if it has one.
    pub icon_url: Option<String>,
}

fn clone_opt(s: &Option<String>) -> (r: Option<String>)
    ensures
        r.deep_view() == s.deep_view(),
{
    match s {
        Some(x) => Some(x.clone()),
        None => None,
    }
}

/// `c` summarizes `p`: the same texts, the format's code, and the number of
/// preset, library and preference locations.
pub open spec fn is_summary_of(c: CPlugin, p: InstalledPlugin) -> bool {
    &&& c.id@ == p@.plugin.id
    &&& c.name@ == p@.plugin.name
    &&& c.version@ == p@.plugin.version
    &&& c.description.deep_view() == p@.plugin.description
    &&& c.install_path@ == p@.install_path
    &&& c.format == format_code(p.format)
    &&& c.preset_count == p@.related_paths.preset_locations.len()
    &&& c.library_count == p@.related_paths.library_locations.len()
    &&& c.preference_count == p@.related_paths.preference_files.len()
    &&& c.icon_url.deep_view() == p@.plugin.icon_url
}

impl CPlugin {
    /// The summary of `p`.
    pub fn from_installed(p: &InstalledPlugin) -> (r: CPlugin)
        ensures
            is_summary_of(r, *p),
    {
        CPlugin {
            id: p.plugin.id.clone(),
            name: p.plugin.name.clone(),
            version: p.plugin.version.clone(),
            description: clone_opt(&p.plugin.description),
            install_path: p.install_path.clone(),
            format: format_to_int(p.format),
            preset_count: p.related_paths.preset_locations.len(),
            library_count: p.related_paths.library_locations.len(),
            preference_count: p.related_paths.preference_files.len(),
            icon_url: clone_opt(&p.plugin.icon_url),
        }
    }
}

impl CPluginList {
    /// The summary of the plugin at `index`, or `None` past the end.
    pub fn summary(&self, index: usize) -> (r: Option<CPlugin>)
        ensures
            index >= self.items().len() ==> r.is_none(),
            index < self.items().len() ==> r.is_some() && is_summary_of(r.unwrap(), self.items()[index as int]),
    {
        match self.get(index) {
            Some(p) => Some(CPlugin::from_installed(p)),
            None => None,
        }
    }
}

} // verus!
