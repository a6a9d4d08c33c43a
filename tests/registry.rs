use plugindepot::boundary::{format_to_int, CPathList, CPluginList, CResultCode};
use plugindepot::operations::{backup_folder_name, export_folder_name, import_plugin, OperationError};
use plugindepot::registry::{assemble_plugin, assemble_root, detect_orphaned_files, directories_to_expand, enumerate_plugin_files, scan_installed};
use plugindepot::related::{PathCheck, RelatedProbes};
use plugindepot::scanner::PluginEntry;
use plugindepot::scanner::{DirEntryInfo, EntryKind};
use plugindepot::{InstalledPlugin, Plugin, PluginFormat, RelatedPaths};

fn installed(path: &str, name: &str, format: PluginFormat, icon: Option<&str>) -> InstalledPlugin {
    InstalledPlugin {
        plugin: Plugin {
            id: name.to_lowercase(),
            name: name.to_string(),
            version: "unknown".to_string(),
            description: None,
            author: None,
            icon_url: icon.map(|i| i.to_string()),
        },
        install_path: path.to_string(),
        format,
        enabled: true,
        related_paths: RelatedPaths::default(),
    }
}

fn dir_entry(path: &str, kind: EntryKind) -> DirEntryInfo {
    let name = path.rsplit('/').next().unwrap().to_string();
    DirEntryInfo { path: path.to_string(), name, kind }
}

fn strings(v: &[&str]) -> Vec<String> {
    v.iter().map(|s| s.to_string()).collect()
}

#[test]
fn orphans_exclude_known_and_include_siblings() {
    let known = vec![installed("/root/Foo.vst3", "Foo", PluginFormat::VST3, None)];
    let listings = vec![Some(vec![
        dir_entry("/root/Foo.vst3", EntryKind::Directory),
        dir_entry("/root/Leftover.vst3", EntryKind::Directory),
        dir_entry("/root/readme.txt", EntryKind::File),
    ])];
    let orphans = detect_orphaned_files(&known, &listings);
    assert_eq!(orphans, vec!["/root/Leftover.vst3", "/root/readme.txt"]);
    assert!(!orphans.contains(&"/root/Foo.vst3".to_string()));
}

#[test]
fn preset_and_library_locations_are_owned() {
    let mut p = installed("/a/Foo.vst", "Foo", PluginFormat::VST2, None);
    p.related_paths.preset_locations = strings(&["/b/Foo Presets"]);
    p.related_paths.library_locations = strings(&["/b/Foo Library"]);
    p.related_paths.support_locations = strings(&["/b/Foo Support"]);
    p.related_paths.preference_files = strings(&["/b/foo.plist"]);
    let listings = vec![
        Some(vec![dir_entry("/a/Foo.vst", EntryKind::Directory)]),
        None,
        Some(vec![
            dir_entry("/b/Foo Presets", EntryKind::Directory),
            dir_entry("/b/Foo Library", EntryKind::Directory),
            dir_entry("/b/Foo Support", EntryKind::Directory),
            dir_entry("/b/foo.plist", EntryKind::File),
        ]),
    ];
    let orphans = detect_orphaned_files(&vec![p], &listings);
    assert_eq!(orphans, vec!["/b/Foo Support", "/b/foo.plist"]);
}

#[test]
fn unreadable_root_reports_nothing() {
    let orphans = detect_orphaned_files(&Vec::new(), &vec![None, Some(vec![dir_entry("/x/Stray", EntryKind::Special)])]);
    assert_eq!(orphans, vec!["/x/Stray"]);
}

#[test]
fn unreadable_root_does_not_hide_others() {
    let roots = vec![
        None,
        Some(vec![installed("/v3/Foo.vst3", "Foo", PluginFormat::VST3, Some("file:///i.png"))]),
        None,
        Some(vec![installed("/v2/Foo.vst", "Foo", PluginFormat::VST2, None)]),
    ];
    let report = scan_installed(roots);
    assert_eq!(report.unreadable_roots, vec![0, 2]);
    let paths: Vec<&str> = report.plugins.iter().map(|p| p.install_path.as_str()).collect();
    assert_eq!(paths, vec!["/v3/Foo.vst3", "/v2/Foo.vst"]);
    assert_eq!(report.plugins[1].plugin.icon_url.as_deref(), Some("file:///i.png"));
}

#[test]
fn scan_of_no_roots_is_empty() {
    let report = scan_installed(Vec::new());
    assert!(report.plugins.is_empty());
    assert!(report.unreadable_roots.is_empty());
}

#[test]
fn plugin_files_in_order() {
    let mut p = installed("/a/Foo.vst", "Foo", PluginFormat::VST2, None);
    p.related_paths.preset_locations = strings(&["/p"]);
    p.related_paths.library_locations = strings(&["/l1", "/l2"]);
    p.related_paths.support_locations = strings(&["/s"]);
    p.related_paths.preference_files = strings(&["/pref.plist"]);
    let dirs = directories_to_expand(&p);
    assert_eq!(dirs, vec!["/p", "/l1", "/l2", "/s"]);
    let expanded = vec![strings(&["/p/a", "/p/b"]), strings(&[]), strings(&["/l2/x"]), strings(&["/s/y"])];
    let files = enumerate_plugin_files(&p, &expanded);
    assert_eq!(files, vec!["/a/Foo.vst", "/p/a", "/p/b", "/l2/x", "/s/y", "/pref.plist"]);
}

#[test]
fn folder_names_for_backup_and_export() {
    assert_eq!(backup_folder_name("My Big Synth", "20240102_030405"), "My_Big_Synth_20240102_030405");
    assert_eq!(export_folder_name("My Big Synth"), "My_Big_Synth_export");
}

#[test]
fn import_is_not_available() {
    assert!(matches!(import_plugin("/pkg"), Err(OperationError::NotImplemented)));
}

#[test]
fn plugin_list_snapshot() {
    let list = CPluginList::new(vec![installed("/a", "A", PluginFormat::AU, None), installed("/b", "B", PluginFormat::AAX, None)]);
    assert_eq!(list.count(), 2);
    assert_eq!(list.get(1).unwrap().install_path, "/b");
    assert!(list.get(2).is_none());
}

#[test]
fn path_list_snapshot() {
    let list = CPathList::new(strings(&["/x", "/y"]));
    assert_eq!(list.count(), 2);
    assert_eq!(list.get(0).unwrap(), "/x");
    assert!(list.get(5).is_none());
}

#[test]
fn result_codes() {
    assert_eq!(CResultCode::from_outcome(true), CResultCode::Success);
    assert_eq!(CResultCode::from_outcome(false).code(), 1);
    assert_eq!(CResultCode::Success.code(), 0);
}

#[test]
fn assembled_plugin_has_icon_and_related_paths() {
    let found = PluginEntry { name: "Tape Echo".to_string(), path: "/r/Tape Echo.vst3".to_string(), kind: EntryKind::Directory };
    let listings = vec![Some(vec![dir_entry("/r/Tape Echo.vst3/Contents/Resources/tapeecho.icns", EntryKind::File)]), None, None];
    let probes = RelatedProbes {
        preset_locations: vec![PathCheck { path: "/u/Music/Tape Echo".to_string(), exists: true }],
        library_locations: vec![PathCheck { path: "/lib/Tape Echo".to_string(), exists: false }],
        support_locations: vec![],
        preference_files: vec![],
    };
    let p = assemble_plugin(&found, PluginFormat::VST3, &listings, &Vec::new(), &probes);
    assert_eq!(p.plugin.id, "vst3.tape-echo");
    assert_eq!(p.plugin.description.as_deref(), Some("VST3 plugin"));
    assert_eq!(p.plugin.icon_url.as_deref(), Some("file:///r/Tape Echo.vst3/Contents/Resources/tapeecho.icns"));
    assert_eq!(p.related_paths.preset_locations, vec!["/u/Music/Tape Echo"]);
    assert!(p.related_paths.library_locations.is_empty());
}

#[test]
fn plugin_summary_by_value() {
    let mut p = installed("/b/Keys.aaxplugin", "Keys", PluginFormat::AAX, Some("file:///k.png"));
    p.related_paths.preset_locations = strings(&["/p1", "/p2"]);
    p.related_paths.preference_files = strings(&["/k.plist"]);
    let list = CPluginList::new(vec![installed("/a", "A", PluginFormat::VST3, None), p]);
    let s = list.summary(1).unwrap();
    assert_eq!(s.name, "Keys");
    assert_eq!(s.install_path, "/b/Keys.aaxplugin");
    assert_eq!(s.format, 3);
    assert_eq!((s.preset_count, s.library_count, s.preference_count), (2, 0, 1));
    assert_eq!(s.icon_url.as_deref(), Some("file:///k.png"));
    assert_eq!(list.summary(0).unwrap().format, 1);
    assert!(list.summary(2).is_none());
    assert_eq!(format_to_int(PluginFormat::VST2), 0);
    assert_eq!(format_to_int(PluginFormat::AU), 2);
}

#[test]
fn root_plugins_assembled_in_order() {
    let found = vec![
        PluginEntry { name: "One".to_string(), path: "/r/One.vst".to_string(), kind: EntryKind::Directory },
        PluginEntry { name: "Two Words".to_string(), path: "/r/Two Words.vst".to_string(), kind: EntryKind::Directory },
    ];
    let siblings = vec![dir_entry("/r/Two Words.png", EntryKind::File)];
    let empty = || RelatedProbes { preset_locations: vec![], library_locations: vec![], support_locations: vec![], preference_files: vec![] };
    let plugins = assemble_root(&found, PluginFormat::VST2, &siblings, &vec![vec![], vec![None, None, None]], &vec![empty(), empty()]);
    assert_eq!(plugins.len(), 2);
    assert_eq!(plugins[0].plugin.id, "vst2.one");
    assert_eq!(plugins[0].plugin.icon_url, None);
    assert_eq!(plugins[1].plugin.id, "vst2.two-words");
    assert_eq!(plugins[1].install_path, "/r/Two Words.vst");
    assert_eq!(plugins[1].plugin.icon_url.as_deref(), Some("file:///r/Two Words.png"));
}
