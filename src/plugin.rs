//! The records that a scan produces.
use vstd::prelude::*;

verus! {

/// The four plugin packaging standards.
#[derive(Clone, Copy, Debug, PartialEq, Eq, Structural)]
pub enum PluginFormat {
    VST2,
    VST3,
    /// Audio Units (macOS).
    AU,
    /// Avid AAX.
    AAX,
}

/// Descriptive information about a plugin.
#[derive(Clone, Debug)]
pub struct Plugin {
    pub id: String,
    pub name: String,
    pub version: String,
    pub description: Option<String>,
    pub author: Option<String>,
    /// A `file://` URL or a remote URL of the plugin's icon.
    pub icon_url: Option<String>,
}

/// A plugin found on disk, with where it lives and what belongs to it.
#[derive(Clone, Debug)]
pub struct InstalledPlugin {
    pub plugin: Plugin,
    pub install_path: String,
    pub format: PluginFormat,
    pub enabled: bool,
    pub related_paths: RelatedPaths,
}

/// Locations of plugin-related files and folders; each existed when it was found.
#[derive(Clone, Debug)]
pub struct RelatedPaths {
    /// User preset folders.
    pub preset_locations: Vec<String>,
    /// Factory preset and content folders (samples, impulse responses and the like).
    pub library_locations: Vec<String>,
    /// Application support folders (settings, licenses).
    pub support_locations: Vec<String>,
    /// Preference and configuration files.
    pub preference_files: Vec<String>,
}

/// Manufacturer information.
#[derive(Clone, Debug)]
pub struct Vendor {
    pub id: String,
    pub name: String,
    pub website: Option<String>,
}

/// License information for a plugin.
#[derive(Clone, Debug)]
pub struct License {
    /// License key or serial number.
    pub key: Option<String>,
    /// License type ("Full", "Trial", "NFR" and the like).
    pub license_type: Option<String>,
    /// Email address the license is registered to.
    pub email: Option<String>,
    /// Path of the license file.
    pub license_file: Option<String>,
    /// Expiration date of a trial license.
    pub expiration: Option<String>,
}

/// Complete plugin metadata with vendor and licensing.
#[derive(Clone, Debug)]
pub struct PluginMetadata {
    pub plugin: Plugin,
    pub vendor: Option<Vendor>,
    pub license: Option<License>,
    /// Tags for categorization ("synth", "effect", "compressor").
    pub tags: Vec<String>,
}

/// The abstract value of a [`Plugin`].
pub struct PluginView {
    pub id: Seq<char>,
    pub name: Seq<char>,
    pub version: Seq<char>,
    pub description: Option<Seq<char>>,
    pub author: Option<Seq<char>>,
    pub icon_url: Option<Seq<char>>,
}

/// The abstract value of a [`RelatedPaths`].
pub struct RelatedPathsView {
    pub preset_locations: Seq<Seq<char>>,
    pub library_locations: Seq<Seq<char>>,
    pub support_locations: Seq<Seq<char>>,
    pub preference_files: Seq<Seq<char>>,
}

/// The abstract value of an [`InstalledPlugin`].
pub struct InstalledPluginView {
    pub plugin: PluginView,
    pub install_path: Seq<char>,
    pub format: PluginFormat,
    pub enabled: bool,
    pub related_paths: RelatedPathsView,
}

impl View for Plugin {
    type V = PluginView;

    open spec fn view(&self) -> PluginView {
        PluginView {
            id: self.id@,
            name: self.name@,
            version: self.version@,
            description: self.description.deep_view(),
            author: self.author.deep_view(),
            icon_url: self.icon_url.deep_view(),
        }
    }
}

impl View for RelatedPaths {
    type V = RelatedPathsView;

    open spec fn view(&self) -> RelatedPathsView {
        RelatedPathsView {
            preset_locations: self.preset_locations.deep_view(),
            library_locations: self.library_locations.deep_view(),
            support_locations: self.support_locations.deep_view(),
            preference_files: self.preference_files.deep_view(),
        }
    }
}

impl View for InstalledPlugin {
    type V = InstalledPluginView;

    open spec fn view(&self) -> InstalledPluginView {
        InstalledPluginView {
            plugin: self.plugin@,
            install_path: self.install_path@,
            format: self.format,
            enabled: self.enabled,
            related_paths: self.related_paths@,
        }
    }
}

/// The abstract values of a sequence of installed plugins.
pub open spec fn plugins_view(s: Seq<InstalledPlugin>) -> Seq<InstalledPluginView> {
    s.map_values(|p: InstalledPlugin| p@)
}

impl Default for RelatedPaths {
    /// No related location at all.
    fn default() -> (r: RelatedPaths)
        ensures
            r@.preset_locations.len() == 0,
            r@.library_locations.len() == 0,
            r@.support_locations.len() == 0,
            r@.preference_files.len() == 0,
    {
        RelatedPaths {
            preset_locations: Vec::new(),
            library_locations: Vec::new(),
            support_locations: Vec::new(),
            preference_files: Vec::new(),
        }
    }
}

} // verus!
