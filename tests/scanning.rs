use plugindepot::profile::{get_icon_cache_dir, get_plugin_directories, join, platform_profile, EnvPaths, Platform, PluginRoot};
use plugindepot::related::{discover_related_paths, related_path_candidates, PathCheck, RelatedProbes};
use plugindepot::scanner::{build_installed_plugin, plugin_id, scan_directory, split_extension, DirEntryInfo, EntryKind, PluginEntry};
use plugindepot::{PluginFormat, RelatedPaths};

fn entry(dir: &str, name: &str, kind: EntryKind) -> DirEntryInfo {
    DirEntryInfo { path: format!("{}/{}", dir, name), name: name.to_string(), kind }
}

fn env(home: Option<&str>) -> EnvPaths {
    EnvPaths {
        home: home.map(|h| h.to_string()),
        app_data: Some("C:\\Users\\a\\AppData\\Roaming".to_string()),
        program_data: Some("C:\\ProgramData".to_string()),
        local_app_data: Some("C:\\Users\\a\\AppData\\Local".to_string()),
    }
}

fn roots(v: &[PluginRoot]) -> Vec<(String, PluginFormat)> {
    v.iter().map(|r| (r.path.clone(), r.format)).collect()
}

#[test]
fn every_format_is_discovered_on_macos() {
    let cases = [
        (PluginFormat::VST2, "vst", "vst2"),
        (PluginFormat::VST3, "vst3", "vst3"),
        (PluginFormat::AU, "component", "au"),
        (PluginFormat::AAX, "aaxplugin", "aax"),
    ];
    for (format, ext, tag) in cases {
        let name = format!("Big Synth.{}", ext);
        let entries = vec![entry("/root", &name, EntryKind::Directory)];
        let found = scan_directory(&entries, format, Platform::MacOs);
        assert_eq!(found.len(), 1);
        assert_eq!(found[0].name, "Big Synth");
        assert_eq!(found[0].path, format!("/root/{}", name));
        let p = build_installed_plugin(&found[0], format, None, RelatedPaths::default());
        assert_eq!(p.plugin.id, format!("{}.big-synth", tag));
    }
}

#[test]
fn every_format_is_discovered_on_windows() {
    let cases = [
        (PluginFormat::VST2, "dll", EntryKind::File, "vst2"),
        (PluginFormat::VST3, "vst3", EntryKind::Directory, "vst3"),
        (PluginFormat::AU, "component", EntryKind::File, "au"),
        (PluginFormat::AAX, "aax", EntryKind::File, "aax"),
    ];
    for (format, ext, kind, tag) in cases {
        let name = format!("Pad One.{}", ext);
        let entries = vec![entry("C:\\root", &name, kind)];
        let found = scan_directory(&entries, format, Platform::Windows);
        assert_eq!(found.len(), 1);
        assert_eq!(found[0].kind, kind);
        let p = build_installed_plugin(&found[0], format, None, RelatedPaths::default());
        assert_eq!(p.plugin.id, format!("{}.pad-one", tag));
    }
}

#[test]
fn wrong_kind_or_extension_is_skipped() {
    let entries = vec![
        entry("/r", "Flat.vst3", EntryKind::File),
        entry("/r", "Upper.VST3", EntryKind::Directory),
        entry("/r", ".vst3", EntryKind::Directory),
        entry("/r", "Other.vst", EntryKind::Directory),
        entry("/r", "Link.vst3", EntryKind::Dangling),
        entry("/r", "Good.vst3", EntryKind::Directory),
        entry("/r", "Two.dots.vst3", EntryKind::Directory),
    ];
    let found = scan_directory(&entries, PluginFormat::VST3, Platform::MacOs);
    let names: Vec<&str> = found.iter().map(|e| e.name.as_str()).collect();
    assert_eq!(names, vec!["Good", "Two.dots"]);
}

#[test]
fn empty_listing_finds_nothing() {
    let found = scan_directory(&Vec::new(), PluginFormat::AU, Platform::MacOs);
    assert!(found.is_empty());
}

#[test]
fn built_plugin_carries_synthesized_metadata() {
    let e = PluginEntry { name: "Grand Piano".to_string(), path: "/r/Grand Piano.component".to_string(), kind: EntryKind::Directory };
    let p = build_installed_plugin(&e, PluginFormat::AU, Some("file:///x.png".to_string()), RelatedPaths::default());
    assert_eq!(p.plugin.id, "au.grand-piano");
    assert_eq!(p.plugin.name, "Grand Piano");
    assert_eq!(p.plugin.version, "unknown");
    assert_eq!(p.plugin.description.as_deref(), Some("AU plugin"));
    assert_eq!(p.plugin.author, None);
    assert_eq!(p.plugin.icon_url.as_deref(), Some("file:///x.png"));
    assert_eq!(p.install_path, "/r/Grand Piano.component");
    assert_eq!(p.format, PluginFormat::AU);
    assert!(p.enabled);
}

#[test]
fn plugin_id_lowercases_beyond_ascii() {
    assert_eq!(plugin_id(PluginFormat::VST2, "ÄRGER Box"), "vst2.ärger-box");
    assert_eq!(plugin_id(PluginFormat::AAX, "X"), "aax.x");
}

#[test]
fn split_extension_follows_path_rules() {
    assert_eq!(split_extension("a.b.c"), Some(("a.b".to_string(), "c".to_string())));
    assert_eq!(split_extension("noext"), None);
    assert_eq!(split_extension(".hidden"), None);
    assert_eq!(split_extension("trailing."), Some(("trailing".to_string(), "".to_string())));
}

#[test]
fn macos_roots_with_and_without_home() {
    let with = roots(&get_plugin_directories(Platform::MacOs, &env(Some("/Users/a"))));
    assert_eq!(with.len(), 7);
    assert_eq!(with[0], ("/Library/Audio/Plug-Ins/Components".to_string(), PluginFormat::AU));
    assert_eq!(with[1], ("/Users/a/Library/Audio/Plug-Ins/Components".to_string(), PluginFormat::AU));
    assert_eq!(with[3], ("/Users/a/Library/Audio/Plug-Ins/VST".to_string(), PluginFormat::VST2));
    assert_eq!(with[5], ("/Users/a/Library/Audio/Plug-Ins/VST3".to_string(), PluginFormat::VST3));
    assert_eq!(with[6], ("/Library/Application Support/Avid/Audio/Plug-Ins".to_string(), PluginFormat::AAX));
    let without = roots(&get_plugin_directories(Platform::MacOs, &env(None)));
    assert_eq!(
        without,
        vec![
            ("/Library/Audio/Plug-Ins/Components".to_string(), PluginFormat::AU),
            ("/Library/Audio/Plug-Ins/VST".to_string(), PluginFormat::VST2),
            ("/Library/Audio/Plug-Ins/VST3".to_string(), PluginFormat::VST3),
            ("/Library/Application Support/Avid/Audio/Plug-Ins".to_string(), PluginFormat::AAX),
        ]
    );
}

#[test]
fn windows_and_linux_roots() {
    let w = roots(&get_plugin_directories(Platform::Windows, &env(None)));
    assert_eq!(w.len(), 8);
    assert_eq!(w[0], ("C:\\Program Files\\VSTPlugins".to_string(), PluginFormat::VST2));
    assert_eq!(w[5], ("C:\\Program Files\\Common Files\\VST3".to_string(), PluginFormat::VST3));
    assert_eq!(w[7], ("C:\\Program Files (x86)\\Common Files\\Avid\\Audio\\Plug-Ins".to_string(), PluginFormat::AAX));
    assert!(get_plugin_directories(Platform::Linux, &env(Some("/home/a"))).is_empty());
}

#[test]
fn icon_cache_dir_per_platform() {
    assert_eq!(get_icon_cache_dir(Platform::MacOs, &env(Some("/Users/a"))).as_deref(), Some("/Users/a/Library/Caches/PluginDepot/icons"));
    assert_eq!(get_icon_cache_dir(Platform::Windows, &env(None)).as_deref(), Some("C:\\Users\\a\\AppData\\Local\\PluginDepot\\icons"));
    assert_eq!(get_icon_cache_dir(Platform::Linux, &env(Some("/home/a"))).as_deref(), Some("/home/a/.cache/plugindepot/icons"));
    assert_eq!(get_icon_cache_dir(Platform::MacOs, &env(None)), None);
}

#[test]
fn join_adds_one_separator() {
    assert_eq!(join("/a", "b", Platform::MacOs), "/a/b");
    assert_eq!(join("/a/", "b", Platform::MacOs), "/a/b");
    assert_eq!(join("C:\\a", "b", Platform::Windows), "C:\\a\\b");
    assert_eq!(join("", "b", Platform::Windows), "b");
}

#[test]
fn format_extensions_and_kinds() {
    assert_eq!(PluginFormat::AAX.extension(Platform::MacOs), "aaxplugin");
    assert_eq!(PluginFormat::VST2.extension(Platform::Windows), "dll");
    assert!(PluginFormat::VST2.is_bundle(Platform::MacOs));
    assert!(!PluginFormat::VST2.is_bundle(Platform::Windows));
    assert!(PluginFormat::VST3.is_bundle(Platform::Windows));
}

#[test]
fn macos_related_candidates() {
    let c = related_path_candidates(Platform::MacOs, &env(Some("/Users/a")), "My Synth");
    assert_eq!(
        c.preset_locations,
        vec![
            "/Users/a/Music/My Synth",
            "/Users/a/Library/Audio/Presets/My Synth",
            "/Users/a/Documents/My Synth",
            "/Users/a/Documents/My Synth Library",
        ]
    );
    assert_eq!(
        c.library_locations,
        vec![
            "/Library/Application Support/My Synth",
            "/Users/a/Library/Application Support/My Synth",
            "/Library/Audio/Sounds/My Synth",
            "/Users/a/Library/Audio/Sounds/My Synth",
        ]
    );
    assert!(c.support_locations.is_empty());
    assert_eq!(
        c.preference_files,
        vec!["/Users/a/Library/Preferences/com.mysynth.plist", "/Users/a/Library/Preferences/MySynth.plist"]
    );
}

#[test]
fn macos_related_candidates_without_home() {
    let c = related_path_candidates(Platform::MacOs, &env(None), "Keys");
    assert!(c.preset_locations.is_empty());
    assert_eq!(c.library_locations, vec!["/Library/Application Support/Keys", "/Library/Audio/Sounds/Keys"]);
    assert!(c.preference_files.is_empty());
}

#[test]
fn windows_related_candidates() {
    let c = related_path_candidates(Platform::Windows, &env(None), "Keys");
    assert_eq!(
        c.preset_locations,
        vec!["C:\\Users\\a\\AppData\\Roaming\\Keys", "C:\\Users\\a\\AppData\\Roaming\\Keys\\Presets"]
    );
    assert_eq!(c.library_locations, vec!["C:\\ProgramData\\Keys"]);
    assert!(c.preference_files.is_empty());
}

fn check(path: &str, exists: bool) -> PathCheck {
    PathCheck { path: path.to_string(), exists }
}

#[test]
fn no_candidate_found_gives_empty_categories() {
    let probes = RelatedProbes {
        preset_locations: vec![check("/a", false), check("/b", false)],
        library_locations: vec![check("/c", false)],
        support_locations: vec![],
        preference_files: vec![check("/d.plist", false)],
    };
    let r = discover_related_paths(&probes);
    assert!(r.preset_locations.is_empty());
    assert!(r.library_locations.is_empty());
    assert!(r.support_locations.is_empty());
    assert!(r.preference_files.is_empty());
}

#[test]
fn existing_candidates_are_kept_in_order() {
    let probes = RelatedProbes {
        preset_locations: vec![check("/a", true), check("/b", false), check("/c", true)],
        library_locations: vec![check("/lib", true)],
        support_locations: vec![],
        preference_files: vec![check("/p1", false), check("/p2", true)],
    };
    let r = discover_related_paths(&probes);
    assert_eq!(r.preset_locations, vec!["/a", "/c"]);
    assert_eq!(r.library_locations, vec!["/lib"]);
    assert_eq!(r.preference_files, vec!["/p2"]);
}

#[test]
fn profile_bundles_roots_and_cache() {
    let p = platform_profile(Platform::MacOs, env(Some("/Users/b")));
    assert_eq!(p.platform, Platform::MacOs);
    assert_eq!(p.roots.len(), 7);
    assert_eq!(p.icon_cache_dir.as_deref(), Some("/Users/b/Library/Caches/PluginDepot/icons"));
    let l = platform_profile(Platform::Linux, env(None));
    assert!(l.roots.is_empty());
    assert_eq!(l.icon_cache_dir, None);
}
