//! Per-platform description of where plugins live and how they are packaged.
use vstd::prelude::*;
use crate::plugin::PluginFormat;
use crate::text::concat;

verus! {

/// The operating system whose conventions a profile follows.
#[derive(Clone, Copy, Debug, PartialEq, Eq, Structural)]
pub enum Platform {
    MacOs,
    Windows,
    Linux,
}

/// Whether a plugin is a directory (a bundle) or a single regular file.
#[derive(Clone, Copy, Debug, PartialEq, Eq, Structural)]
pub enum Representation {
    Bundle,
    File,
}

/// The file extension of a format on a platform.
pub open spec fn extension_of(format: PluginFormat, platform: Platform) -> Seq<char> {
    match platform {
        Platform::Windows => match format {
            PluginFormat::VST2 => "dll"@,
            PluginFormat::VST3 => "vst3"@,
            PluginFormat::AU => "component"@,
            PluginFormat::AAX => "aax"@,
        },
        _ => match format {
            PluginFormat::VST2 => "vst"@,
            PluginFormat::VST3 => "vst3"@,
            PluginFormat::AU => "component"@,
            PluginFormat::AAX => "aaxplugin"@,
        },
    }
}

/// How a format is packaged on a platform: on Windows only VST3 comes as a bundle,
/// elsewhere every format does.
pub open spec fn representation_of(format: PluginFormat, platform: Platform) -> Representation {
    match platform {
        Platform::Windows => if format == PluginFormat::VST3 {
            Representation::Bundle
        } else {
            Representation::File
        },
        _ => Representation::Bundle,
    }
}

/// The path separator of a platform.
pub open spec fn separator_of(platform: Platform) -> char {
    match platform {
        Platform::Windows => '\\',
        _ => '/',
    }
}

impl PluginFormat {
    /// The file extension that plugins of this format carry on `platform`.
    pub fn extension(&self, platform: Platform) -> (r: &'static str)
        ensures
            r@ == extension_of(*self, platform),
    {
        match platform {
            Platform::Windows => match self {
                PluginFormat::VST2 => "dll",
                PluginFormat::VST3 => "vst3",
                PluginFormat::AU => "component",
                PluginFormat::AAX => "aax",
            },
            _ => match self {
                PluginFormat::VST2 => "vst",
                PluginFormat::VST3 => "vst3",
                PluginFormat::AU => "component",
                PluginFormat::AAX => "aaxplugin",
            },
        }
    }

    /// Whether plugins of this format are bundles (directories) on `platform`.
    pub fn is_bundle(&self, platform: Platform) -> (r: bool)
        ensures
            r == (representation_of(*self, platform) == Representation::Bundle),
    {
        match platform {
            Platform::Windows => match self {
                PluginFormat::VST3 => true,
                _ => false,
            },
            _ => true,
        }
    }
}

impl Platform {
    /// The character that separates path components.
    pub fn separator(&self) -> (r: char)
        ensures
            r == separator_of(*self),
    {
        match self {
            Platform::Windows => '\\',
            _ => '/',
        }
    }
}

/// `rel` appended to `base`, with one separator between them.
pub open spec fn join_path(base: Seq<char>, rel: Seq<char>, sep: char) -> Seq<char> {
    if base.len() == 0 {
        rel
    } else if base.last() == sep || base.last() == '/' {
        base + rel
    } else {
        base + seq![sep] + rel
    }
}

/// `rel` appended to the directory `base` by the conventions of `platform`.
pub fn join(base: &str, rel: &str, platform: Platform) -> (r: String)
    ensures
        r@ == join_path(base@, rel@, separator_of(platform)),
{
    let sep = platform.separator();
    let n = base.unicode_len();
    if n == 0 {
        return String::from_str(rel);
    }
    let last = base.get_char(n - 1);
    if last == sep || last == '/' {
        concat(base, rel)
    } else {
        let mut out = String::from_str(base);
        crate::text::push_char(&mut out, sep);
        out.append(rel);
        out
    }
}

/// The environment-provided directories a profile derives paths from;
/// `None` where the variable is unset.
#[derive(Clone, Debug)]
pub struct EnvPaths {
    /// `HOME`.
    pub home: Option<String>,
    /// `APPDATA`.
    pub app_data: Option<String>,
    /// `PROGRAMDATA`.
    pub program_data: Option<String>,
    /// `LOCALAPPDATA`.
    pub local_app_data: Option<String>,
}

/// A directory to scan and the format expected in it.
#[derive(Clone, Debug)]
pub struct PluginRoot {
    pub path: String,
    pub format: PluginFormat,
}

/// The abstract value of a list of roots.
pub open spec fn roots_view(s: Seq<PluginRoot>) -> Seq<(Seq<char>, PluginFormat)> {
    s.map_values(|r: PluginRoot| (r.path@, r.format))
}

/// The roots of macOS: system-wide and, when the home directory is known, per-user
/// folders for AU, VST2 and VST3, then the Avid folder for AAX.
pub open spec fn mac_roots(home: Option<Seq<char>>) -> Seq<(Seq<char>, PluginFormat)> {
    match home {
        Some(h) => seq![
            ("/Library/Audio/Plug-Ins/Components"@, PluginFormat::AU),
            (h + "/Library/Audio/Plug-Ins/Components"@, PluginFormat::AU),
            ("/Library/Audio/Plug-Ins/VST"@, PluginFormat::VST2),
            (h + "/Library/Audio/Plug-Ins/VST"@, PluginFormat::VST2),
            ("/Library/Audio/Plug-Ins/VST3"@, PluginFormat::VST3),
            (h + "/Library/Audio/Plug-Ins/VST3"@, PluginFormat::VST3),
            ("/Library/Application Support/Avid/Audio/Plug-Ins"@, PluginFormat::AAX),
        ],
        None => seq![
            ("/Library/Audio/Plug-Ins/Components"@, PluginFormat::AU),
            ("/Library/Audio/Plug-Ins/VST"@, PluginFormat::VST2),
            ("/Library/Audio/Plug-Ins/VST3"@, PluginFormat::VST3),
            ("/Library/Application Support/Avid/Audio/Plug-Ins"@, PluginFormat::AAX),
        ],
    }
}

/// The fixed roots of Windows.
pub open spec fn windows_roots() -> Seq<(Seq<char>, PluginFormat)> {
    seq![
        ("C:\\Program Files\\VSTPlugins"@, PluginFormat::VST2),
        ("C:\\Program Files\\Steinberg\\VSTPlugins"@, PluginFormat::VST2),
        ("C:\\Program Files\\Common Files\\VST2"@, PluginFormat::VST2),
        ("C:\\Program Files (x86)\\VSTPlugins"@, PluginFormat::VST2),
        ("C:\\Program Files (x86)\\Steinberg\\VSTPlugins"@, PluginFormat::VST2),
        ("C:\\Program Files\\Common Files\\VST3"@, PluginFormat::VST3),
        ("C:\\Program Files\\Common Files\\Avid\\Audio\\Plug-Ins"@, PluginFormat::AAX),
        ("C:\\Program Files (x86)\\Common Files\\Avid\\Audio\\Plug-Ins"@, PluginFormat::AAX),
    ]
}

/// The ordered roots of a platform; Linux has none.
pub open spec fn roots_of(platform: Platform, env: EnvPaths) -> Seq<(Seq<char>, PluginFormat)> {
    match platform {
        Platform::MacOs => mac_roots(env.home.deep_view()),
        Platform::Windows => windows_roots(),
        Platform::Linux => seq![],
    }
}

fn root(path: String, format: PluginFormat) -> (r: PluginRoot)
    ensures
        r.path@ == path@,
        r.format == format,
{
    PluginRoot { path, format }
}

/// The standard plugin directories of `platform`, in scanning order. Directories
/// under the home directory are left out when it is unknown.
pub fn get_plugin_directories(platform: Platform, env: &EnvPaths) -> (r: Vec<PluginRoot>)
    ensures
        roots_view(r@) == roots_of(platform, *env),
{
    let mut dirs: Vec<PluginRoot> = Vec::new();
    match platform {
        Platform::MacOs => {
            match &env.home {
                Some(h) => {
                    dirs.push(root(String::from_str("/Library/Audio/Plug-Ins/Components"), PluginFormat::AU));
                    dirs.push(root(concat(h.as_str(), "/Library/Audio/Plug-Ins/Components"), PluginFormat::AU));
                    dirs.push(root(String::from_str("/Library/Audio/Plug-Ins/VST"), PluginFormat::VST2));
                    dirs.push(root(concat(h.as_str(), "/Library/Audio/Plug-Ins/VST"), PluginFormat::VST2));
                    dirs.push(root(String::from_str("/Library/Audio/Plug-Ins/VST3"), PluginFormat::VST3));
                    dirs.push(root(concat(h.as_str(), "/Library/Audio/Plug-Ins/VST3"), PluginFormat::VST3));
                },
                None => {
                    dirs.push(root(String::from_str("/Library/Audio/Plug-Ins/Components"), PluginFormat::AU));
                    dirs.push(root(String::from_str("/Library/Audio/Plug-Ins/VST"), PluginFormat::VST2));
                    dirs.push(root(String::from_str("/Library/Audio/Plug-Ins/VST3"), PluginFormat::VST3));
                },
            }
            dirs.push(root(String::from_str("/Library/Application Support/Avid/Audio/Plug-Ins"), PluginFormat::AAX));
        },
        Platform::Windows => {
            dirs.push(root(String::from_str("C:\\Program Files\\VSTPlugins"), PluginFormat::VST2));
            dirs.push(root(String::from_str("C:\\Program Files\\Steinberg\\VSTPlugins"), PluginFormat::VST2));
            dirs.push(root(String::from_str("C:\\Program Files\\Common Files\\VST2"), PluginFormat::VST2));
            dirs.push(root(String::from_str("C:\\Program Files (x86)\\VSTPlugins"), PluginFormat::VST2));
            dirs.push(root(String::from_str("C:\\Program Files (x86)\\Steinberg\\VSTPlugins"), PluginFormat::VST2));
            dirs.push(root(String::from_str("C:\\Program Files\\Common Files\\VST3"), PluginFormat::VST3));
            dirs.push(root(String::from_str("C:\\Program Files\\Common Files\\Avid\\Audio\\Plug-Ins"), PluginFormat::AAX));
            dirs.push(root(String::from_str("C:\\Program Files (x86)\\Common Files\\Avid\\Audio\\Plug-Ins"), PluginFormat::AAX));
        },
        Platform::Linux => {},
    }
    assert(roots_view(dirs@) =~= roots_of(platform, *env));
    dirs
}

/// The icon cache directory of a platform, or `None` when the variable it
/// derives from is unset.
pub open spec fn icon_cache_dir_of(platform: Platform, env: EnvPaths) -> Option<Seq<char>> {
    match platform {
        Platform::MacOs => match env.home.deep_view() {
            Some(h) => Some(h + "/Library/Caches/PluginDepot/icons"@),
            None => None,
        },
        Platform::Windows => match env.local_app_data.deep_view() {
            Some(d) => Some(d + "\\PluginDepot\\icons"@),
            None => None,
        },
        Platform::Linux => match env.home.deep_view() {
            Some(h) => Some(h + "/.cache/plugindepot/icons"@),
            None => None,
        },
    }
}

/// Where cached icons are kept on `platform`.
pub fn get_icon_cache_dir(platform: Platform, env: &EnvPaths) -> (r: Option<String>)
    ensures
        r.deep_view() == icon_cache_dir_of(platform, *env),
{
    match platform {
        Platform::MacOs => match &env.home {
            Some(h) => Some(concat(h.as_str(), "/Library/Caches/PluginDepot/icons")),
            None => None,
        },
        Platform::Windows => match &env.local_app_data {
            Some(d) => Some(concat(d.as_str(), "\\PluginDepot\\icons")),
            None => None,
        },
        Platform::Linux => match &env.home {
            Some(h) => Some(concat(h.as_str(), "/.cache/plugindepot/icons")),
            None => None,
        },
    }
}

/// Everything that depends on the target platform: the roots to scan, in
/// order, and where icons are cached. Extensions and packaging come from
/// [`PluginFormat::extension`] and [`PluginFormat::is_bundle`], related-path
/// templates from `related_path_candidates`, both given `platform`.
#[derive(Clone, Debug)]
pub struct PlatformProfile {
    pub platform: Platform,
    pub env: EnvPaths,
    pub roots: Vec<PluginRoot>,
    pub icon_cache_dir: Option<String>,
}

/// The profile of `platform`, with paths derived from `env`.
pub fn platform_profile(platform: Platform, env: EnvPaths) -> (r: PlatformProfile)
    ensures
        r.platform == platform,
        r.env == env,
        roots_view(r.roots@) == roots_of(platform, env),
        r.icon_cache_dir.deep_view() == icon_cache_dir_of(platform, env),
{
    let roots = get_plugin_directories(platform, &env);
    let icon_cache_dir = get_icon_cache_dir(platform, &env);
    PlatformProfile { platform, env, roots, icon_cache_dir }
}

} // verus!
