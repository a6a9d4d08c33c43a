use plugindepot::cache::{cache_file_path, fetch_icon, get_cached_icon_path, icon_path_candidate, url_to_cache_filename, IconError, IconOrigin};
use plugindepot::discovery::{discover_plugin_icon, icon_search_dirs};
use plugindepot::names::{normalize_folded_name, normalize_plugin_name};
use plugindepot::profile::Platform;
use plugindepot::scanner::{DirEntryInfo, EntryKind, PluginEntry};
use plugindepot::sharing::share_icons_between_formats;
use plugindepot::{InstalledPlugin, Plugin, PluginFormat, RelatedPaths};

fn file(dir: &str, name: &str) -> DirEntryInfo {
    DirEntryInfo { path: format!("{}/{}", dir, name), name: name.to_string(), kind: EntryKind::File }
}

fn bundle(name: &str) -> PluginEntry {
    PluginEntry { name: name.to_string(), path: format!("/r/{}.vst3", name), kind: EntryKind::Directory }
}

fn installed(name: &str, format: PluginFormat, icon: Option<&str>) -> InstalledPlugin {
    InstalledPlugin {
        plugin: Plugin {
            id: name.to_lowercase(),
            name: name.to_string(),
            version: "unknown".to_string(),
            description: None,
            author: None,
            icon_url: icon.map(|i| i.to_string()),
        },
        install_path: format!("/r/{}", name),
        format,
        enabled: true,
        related_paths: RelatedPaths::default(),
    }
}

#[test]
fn normalization_strips_suffixes_and_separators() {
    assert_eq!(normalize_plugin_name("Foo VST"), "foo");
    assert_eq!(normalize_plugin_name("Foo VST3"), "foo");
    assert_eq!(normalize_plugin_name("Serum_x64"), "serum");
    assert_eq!(normalize_plugin_name("My-Plugin FX"), "myplugin");
    assert_eq!(normalize_plugin_name("Delay Effect Effect"), "delay");
    assert_eq!(normalize_plugin_name("Reverb 64 32"), "reverb");
    assert_eq!(normalize_plugin_name("Foo VST3 x64"), "foo");
    assert_eq!(normalize_plugin_name("Synth_x86 FX vst"), "synth");
    assert_eq!(normalize_plugin_name(""), "");
}

#[test]
fn normalization_is_idempotent_on_examples() {
    for name in ["Foo VST", "Serum_x64", "My-Plugin FX", "Pro-Q 3", "Reverb 64 32", "ÉTÉ Synth_fx", "Foo VST3 x64"] {
        let once = normalize_plugin_name(name);
        assert_eq!(normalize_plugin_name(&once), once);
    }
}

#[test]
fn normalization_exception_when_vst_tail_survives() {
    let once = normalize_plugin_name("Foo VS-T");
    assert_eq!(once, "foovst");
    assert_eq!(normalize_plugin_name(&once), "foo");
    assert_eq!(normalize_plugin_name("vs-t"), "vst");
    assert_eq!(normalize_plugin_name("vst"), "");
}

#[test]
fn folded_normalization_takes_lowercase_input_as_is() {
    assert_eq!(normalize_folded_name("bass station vst"), "bassstation");
    assert_eq!(normalize_folded_name("Bass VST"), "BassVST");
}

#[test]
fn vst2_takes_vst3_icon() {
    let mut ps = vec![
        installed("Foo", PluginFormat::VST3, Some("file:///foo.png")),
        installed("Foo VST", PluginFormat::VST2, None),
    ];
    share_icons_between_formats(&mut ps);
    assert_eq!(ps[1].plugin.icon_url.as_deref(), Some("file:///foo.png"));
    assert_eq!(ps[0].plugin.icon_url.as_deref(), Some("file:///foo.png"));
}

#[test]
fn au_icon_is_not_shared() {
    let mut ps = vec![
        installed("Foo", PluginFormat::AU, Some("file:///foo.png")),
        installed("Foo", PluginFormat::VST2, None),
        installed("Foo", PluginFormat::AAX, Some("file:///aax.png")),
    ];
    share_icons_between_formats(&mut ps);
    assert_eq!(ps[1].plugin.icon_url, None);
}

#[test]
fn sharing_keeps_own_icons_and_direction() {
    let mut ps = vec![
        installed("Bar VST2", PluginFormat::VST2, Some("file:///mine.png")),
        installed("Bar", PluginFormat::VST3, Some("file:///bar.png")),
        installed("Baz", PluginFormat::VST3, None),
        installed("Baz", PluginFormat::VST2, Some("file:///baz2.png")),
        installed("Qux", PluginFormat::VST2, None),
    ];
    share_icons_between_formats(&mut ps);
    assert_eq!(ps[0].plugin.icon_url.as_deref(), Some("file:///mine.png"));
    assert_eq!(ps[2].plugin.icon_url, None);
    assert_eq!(ps[4].plugin.icon_url, None);
}

#[test]
fn last_vst3_icon_wins() {
    let mut ps = vec![
        installed("Dup", PluginFormat::VST2, None),
        installed("Dup", PluginFormat::VST3, Some("file:///first.png")),
        installed("Dup_x64", PluginFormat::VST3, Some("file:///second.png")),
    ];
    share_icons_between_formats(&mut ps);
    assert_eq!(ps[0].plugin.icon_url.as_deref(), Some("file:///second.png"));
}

#[test]
fn search_dirs_inside_bundle() {
    assert_eq!(
        icon_search_dirs("/r/Foo.vst3", Platform::MacOs),
        vec!["/r/Foo.vst3/Contents/Resources", "/r/Foo.vst3/Resources", "/r/Foo.vst3/Contents"]
    );
    assert_eq!(icon_search_dirs("C:\\r\\Foo.vst3", Platform::Windows)[1], "C:\\r\\Foo.vst3\\Resources");
}

#[test]
fn preferred_icon_beats_earlier_plain_one() {
    let listings = vec![
        Some(vec![file("/b/CR", "readme.txt"), file("/b/CR", "Other.PNG")]),
        None,
        Some(vec![file("/b/C", "Logo_big.png")]),
    ];
    let icon = discover_plugin_icon(&bundle("Foo"), &listings, &Vec::new());
    assert_eq!(icon.as_deref(), Some("file:///b/C/Logo_big.png"));
}

#[test]
fn icon_named_after_plugin_is_preferred() {
    let listings = vec![Some(vec![file("/b/CR", "aaa.icns"), file("/b/CR", "TheMySynthMark.ico")]), None, None];
    let icon = discover_plugin_icon(&bundle("My Synth"), &listings, &Vec::new());
    assert_eq!(icon.as_deref(), Some("file:///b/CR/TheMySynthMark.ico"));
}

#[test]
fn any_icon_when_none_preferred() {
    let listings = vec![
        Some(vec![file("/b/CR", "notes.txt")]),
        Some(vec![file("/b/R", "a.gif"), file("/b/R", "pic.JPEG"), file("/b/R", "z.png")]),
        None,
    ];
    let icon = discover_plugin_icon(&bundle("Foo"), &listings, &Vec::new());
    assert_eq!(icon.as_deref(), Some("file:///b/R/pic.JPEG"));
}

#[test]
fn directories_are_not_icons() {
    let dir = DirEntryInfo { path: "/b/CR/icon.png".to_string(), name: "icon.png".to_string(), kind: EntryKind::Directory };
    let listings = vec![Some(vec![dir]), None, None];
    assert_eq!(discover_plugin_icon(&bundle("Foo"), &listings, &Vec::new()), None);
}

#[test]
fn file_plugin_uses_sibling_icon() {
    let plugin = PluginEntry { name: "My Synth".to_string(), path: "C:/r/My Synth.dll".to_string(), kind: EntryKind::File };
    let siblings = vec![file("C:/r", "mysynth.ico"), file("C:/r", "My Synth.dll"), file("C:/r", "mysynth.png")];
    let icon = discover_plugin_icon(&plugin, &Vec::new(), &siblings);
    assert_eq!(icon.as_deref(), Some("file://C:/r/mysynth.png"));
    let exact = vec![file("C:/r", "mysynth.png"), file("C:/r", "My Synth.png")];
    assert_eq!(discover_plugin_icon(&plugin, &Vec::new(), &exact).as_deref(), Some("file://C:/r/My Synth.png"));
    assert_eq!(discover_plugin_icon(&plugin, &Vec::new(), &Vec::new()), None);
}

#[test]
fn bundle_without_inner_icon_falls_back_to_sibling() {
    let siblings = vec![file("/r", "Foo.jpg")];
    let icon = discover_plugin_icon(&bundle("Foo"), &vec![None, None, None], &siblings);
    assert_eq!(icon.as_deref(), Some("file:///r/Foo.jpg"));
}

#[test]
fn cache_filename_keeps_short_extension() {
    assert_eq!(url_to_cache_filename("https://example.com/icons/foo.png"), "8e29fb340dae2869422fb7d85a25a645.png");
    assert_eq!(url_to_cache_filename("https://example.com/icon.jpeg5"), "4a20a4201c6a1996a27da0ec54b06cd1");
    assert_eq!(url_to_cache_filename("https://example.com/a.p_g"), "a2928bd1eb0bd50fc50036a4c879ca1c");
    assert_eq!(url_to_cache_filename("https://example.com/x.é"), "3c11fad653fe51608928109526d5027b.é");
}

#[test]
fn cache_filename_without_extension_is_bare_hash() {
    assert_eq!(url_to_cache_filename("abc"), "900150983cd24fb0d6963f7d28e17f72");
    assert_eq!(url_to_cache_filename(""), "d41d8cd98f00b204e9800998ecf8427e");
    assert_eq!(url_to_cache_filename("https://example.com/icon."), "d8592de6da379d843aa98396d6ebcf27");
}

#[test]
fn cache_filename_is_deterministic() {
    let u = "https://cdn.example.com/logo.svg";
    assert_eq!(url_to_cache_filename(u), url_to_cache_filename(u));
    assert_eq!(url_to_cache_filename(u), "a51e14fef5361fc8c3ec6fe5a7dc3621.svg");
}

#[test]
fn cached_bytes_are_found_again() {
    // An in-memory stand-in for the cache directory's files.
    let mut disk: std::collections::HashMap<String, Vec<u8>> = std::collections::HashMap::new();
    let dir = "/home/a/.cache/plugindepot/icons".to_string();
    let url = "https://example.com/icons/foo.png";
    let bytes: Vec<u8> = vec![0x89, 0x50, 0x4e, 0x47, 0, 255, 7];
    let path = cache_file_path(&dir, url, Platform::Linux);
    disk.insert(path.clone(), bytes.clone());
    let cand = icon_path_candidate(url, &Some(dir.clone()), Platform::Linux).unwrap();
    assert_eq!(cand.origin, IconOrigin::Cache);
    let exists = disk.contains_key(&cand.path);
    let found = get_cached_icon_path(&Some(cand), exists).unwrap();
    assert_eq!(found, "/home/a/.cache/plugindepot/icons/8e29fb340dae2869422fb7d85a25a645.png");
    assert_eq!(disk[&found], bytes);
}

#[test]
fn file_url_resolves_without_cache() {
    let url = "file:///Library/Audio/Plug-Ins/VST3/Foo.vst3/Contents/Resources/icon.png";
    let a = icon_path_candidate(url, &None, Platform::MacOs).unwrap();
    let b = icon_path_candidate(url, &Some("/Users/a/Library/Caches/PluginDepot/icons".to_string()), Platform::MacOs).unwrap();
    assert_eq!(a.origin, IconOrigin::Local);
    assert_eq!(b.origin, IconOrigin::Local);
    assert_eq!(a.path, "/Library/Audio/Plug-Ins/VST3/Foo.vst3/Contents/Resources/icon.png");
    assert_eq!(b.path, a.path);
    assert_eq!(
        get_cached_icon_path(&Some(a), true).as_deref(),
        Some("/Library/Audio/Plug-Ins/VST3/Foo.vst3/Contents/Resources/icon.png")
    );
}

#[test]
fn missing_local_file_is_not_found() {
    let c = icon_path_candidate("file:///no/such/icon.png", &None, Platform::MacOs);
    assert_eq!(get_cached_icon_path(&c, false), None);
    let twice = icon_path_candidate("file://file:///x.png", &None, Platform::MacOs).unwrap();
    assert_eq!(twice.path, "/x.png");
}

#[test]
fn remote_url_without_cache_dir_has_no_candidate() {
    assert!(icon_path_candidate("https://example.com/a.png", &None, Platform::MacOs).is_none());
}

#[test]
fn fetch_icon_reports_uncached() {
    let url = "https://example.com/icons/foo.png";
    match fetch_icon(url, "/cache", Platform::MacOs, false) {
        Err(IconError::NotCached(u)) => assert_eq!(u, url),
        Ok(p) => panic!("unexpected {}", p),
    }
    let ok = fetch_icon(url, "/cache", Platform::MacOs, true).ok().unwrap();
    assert_eq!(ok, "/cache/8e29fb340dae2869422fb7d85a25a645.png");
}
