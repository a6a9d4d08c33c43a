//! Picking the plugins of one format out of a root directory's listing.
use vstd::prelude::*;
use crate::plugin::{InstalledPlugin, Plugin, PluginFormat, RelatedPaths};
use crate::profile::{Platform, Representation, extension_of, representation_of};
use crate::text::{lower_of, lowercase, replace_char, replace_char_in};

verus! {

/// What a directory entry turned out to be when it was listed.
#[derive(Clone, Copy, Debug, PartialEq, Eq, Structural)]
pub enum EntryKind {
    Directory,
    File,
    /// Exists, but is neither a directory nor a regular file.
    Special,
    /// A link whose target does not exist.
    Dangling,
}

/// One child of a listed directory.
#[derive(Clone, Debug)]
pub struct DirEntryInfo {
    /// The full path of the entry.
    pub path: String,
    /// The entry's file name.
    pub name: String,
    pub kind: EntryKind,
}

/// A listing entry recognized as a plugin.
#[derive(Clone, Debug)]
pub struct PluginEntry {
    /// The file name without its extension.
    pub name: String,
    pub path: String,
    /// What the entry is: a directory for a bundle, a file otherwise.
    pub kind: EntryKind,
}

/// The index of the last `.` among the first `i` characters of `s`, or -1.
pub open spec fn last_dot_before(s: Seq<char>, i: int) -> int
    decreases i,
{
    if i <= 0 {
        -1
    } else if s[i - 1] == '.' {
        i - 1
    } else {
        last_dot_before(s, i - 1)
    }
}

/// The index of the last `.` of a file name, or -1.
pub open spec fn last_dot(s: Seq<char>) -> int {
    last_dot_before(s, s.len() as int)
}

/// A file name has an extension when it holds a `.` other than a leading one.
pub open spec fn has_extension(s: Seq<char>) -> bool {
    last_dot(s) > 0
}

/// What follows the last `.` of a file name.
pub open spec fn extension_part(s: Seq<char>) -> Seq<char> {
    s.subrange(last_dot(s) + 1, s.len() as int)
}

/// A file name without its extension.
pub open spec fn stem_part(s: Seq<char>) -> Seq<char> {
    if has_extension(s) {
        s.subrange(0, last_dot(s))
    } else {
        s
    }
}

pub proof fn lemma_last_dot_range(s: Seq<char>, i: int)
    requires
        0 <= i <= s.len(),
    ensures
        -1 <= last_dot_before(s, i) < i,
        last_dot_before(s, i) >= 0 ==> s[last_dot_before(s, i)] == '.',
        forall|j: int| last_dot_before(s, i) < j < i ==> s[j] != '.',
    decreases i,
{
    if i > 0 && s[i - 1] != '.' {
        lemma_last_dot_range(s, i - 1);
    }
}

/// Splits a file name into stem and extension, the way `Path::file_stem` and
/// `Path::extension` do; `None` when it has no extension.
pub fn split_extension(name: &str) -> (r: Option<(String, String)>)
    ensures
        r.is_some() == has_extension(name@),
        r.is_some() ==> r.unwrap().0@ == stem_part(name@) && r.unwrap().1@ == extension_part(name@),
{
    let n = name.unicode_len();
    let mut i: usize = n;
    proof {
        lemma_last_dot_range(name@, n as int);
    }
    while i > 0
        invariant
            n == name@.len(),
            i <= n,
            last_dot(name@) == last_dot_before(name@, i as int),
        decreases i,
    {
        if name.get_char(i - 1) == '.' {
            if i - 1 == 0 {
                return None;
            }
            let stem = String::from_str(name.substring_char(0, i - 1));
            let ext = String::from_str(name.substring_char(i, n));
            return Some((stem, ext));
        }
        i = i - 1;
    }
    None
}

/// Whether an entry of this kind can be a plugin of this representation.
pub open spec fn kind_fits(kind: EntryKind, rep: Representation) -> bool {
    match rep {
        Representation::Bundle => kind == EntryKind::Directory,
        Representation::File => kind == EntryKind::File,
    }
}

/// Whether a listing entry is a plugin of `format` on `platform`: the right kind,
/// and exactly the format's extension.
pub open spec fn is_plugin_entry(e: DirEntryInfo, format: PluginFormat, platform: Platform) -> bool {
    &&& kind_fits(e.kind, representation_of(format, platform))
    &&& has_extension(e.name@)
    &&& extension_part(e.name@) == extension_of(format, platform)
}

/// The plugins of a listing, as (name, path, kind), in listing order.
pub open spec fn plugin_entries_of(
    s: Seq<DirEntryInfo>,
    format: PluginFormat,
    platform: Platform,
) -> Seq<(Seq<char>, Seq<char>, EntryKind)>
    decreases s.len(),
{
    if s.len() == 0 {
        seq![]
    } else {
        let rest = plugin_entries_of(s.drop_last(), format, platform);
        let e = s.last();
        if is_plugin_entry(e, format, platform) {
            rest.push((stem_part(e.name@), e.path@, e.kind))
        } else {
            rest
        }
    }
}

/// The abstract value of a list of recognized entries.
pub open spec fn entries_view(s: Seq<PluginEntry>) -> Seq<(Seq<char>, Seq<char>, EntryKind)> {
    s.map_values(|e: PluginEntry| (e.name@, e.path@, e.kind))
}

/// The entries of one root's listing that are plugins of `format` on `platform`.
pub fn scan_directory(
    entries: &Vec<DirEntryInfo>,
    format: PluginFormat,
    platform: Platform,
) -> (r: Vec<PluginEntry>)
    ensures
        entries_view(r@) == plugin_entries_of(entries@, format, platform),
{
    let extension = format.extension(platform);
    let bundle = format.is_bundle(platform);
    let mut found: Vec<PluginEntry> = Vec::new();
    let mut i: usize = 0;
    while i < entries.len()
        invariant
            i <= entries@.len(),
            extension@ == extension_of(format, platform),
            bundle == (representation_of(format, platform) == Representation::Bundle),
            entries_view(found@) == plugin_entries_of(entries@.subrange(0, i as int), format, platform),
        decreases entries@.len() - i,
    {
        let e = &entries[i];
        assert(entries@.subrange(0, i + 1).drop_last() =~= entries@.subrange(0, i as int));
        let fits = if bundle {
            e.kind == EntryKind::Directory
        } else {
            e.kind == EntryKind::File
        };
        if fits {
            match split_extension(e.name.as_str()) {
                Some((stem, ext)) => {
                    if crate::text::str_eq(ext.as_str(), extension) {
                        found.push(PluginEntry { name: stem, path: e.path.clone(), kind: e.kind });
                        assert(entries_view(found@) =~= plugin_entries_of(
                            entries@.subrange(0, i + 1),
                            format,
                            platform,
                        ));
                    }
                },
                None => {},
            }
        }
        i = i + 1;
    }
    assert(entries@.subrange(0, entries@.len() as int) =~= entries@);
    found
}

/// The lowercase tag of a format that begins a plugin id.
pub open spec fn format_tag_of(format: PluginFormat) -> Seq<char> {
    match format {
        PluginFormat::VST2 => "vst2"@,
        PluginFormat::VST3 => "vst3"@,
        PluginFormat::AU => "au"@,
        PluginFormat::AAX => "aax"@,
    }
}

/// The description given to every discovered plugin of a format.
pub open spec fn description_of(format: PluginFormat) -> Seq<char> {
    match format {
        PluginFormat::VST2 => "VST2 plugin"@,
        PluginFormat::VST3 => "VST3 plugin"@,
        PluginFormat::AU => "AU plugin"@,
        PluginFormat::AAX => "AAX plugin"@,
    }
}

/// The id of a plugin: the format's tag, a dot, and the lowercased name with
/// spaces turned into dashes.
pub open spec fn plugin_id_of(format: PluginFormat, name: Seq<char>) -> Seq<char> {
    format_tag_of(format) + "."@ + replace_char(lower_of(name), ' ', '-')
}

/// The id of the plugin `name` of `format`.
pub fn plugin_id(format: PluginFormat, name: &str) -> (r: String)
    ensures
        r@ == plugin_id_of(format, name@),
{
    let tag = match format {
        PluginFormat::VST2 => "vst2",
        PluginFormat::VST3 => "vst3",
        PluginFormat::AU => "au",
        PluginFormat::AAX => "aax",
    };
    let lower = lowercase(name);
    let dashed = replace_char_in(lower.as_str(), ' ', '-');
    crate::text::concat3(tag, ".", dashed.as_str())
}

fn description(format: PluginFormat) -> (r: String)
    ensures
        r@ == description_of(format),
{
    let d = match format {
        PluginFormat::VST2 => "VST2 plugin",
        PluginFormat::VST3 => "VST3 plugin",
        PluginFormat::AU => "AU plugin",
        PluginFormat::AAX => "AAX plugin",
    };
    String::from_str(d)
}

/// The installed-plugin record of a recognized entry, with the icon and related
/// paths found for it. Version and author are not read from the bundle: the
/// version is "unknown", the author absent, and the plugin enabled.
pub fn build_installed_plugin(
    entry: &PluginEntry,
    format: PluginFormat,
    icon_url: Option<String>,
    related_paths: RelatedPaths,
) -> (r: InstalledPlugin)
    ensures
        r@.plugin.id == plugin_id_of(format, entry.name@),
        r@.plugin.name == entry.name@,
        r@.plugin.version == "unknown"@,
        r@.plugin.description == Some(description_of(format)),
        r@.plugin.author.is_none(),
        r@.plugin.icon_url == icon_url.deep_view(),
        r@.install_path == entry.path@,
        r@.format == format,
        r@.enabled,
        r@.related_paths == related_paths@,
{
    let plugin = Plugin {
        id: plugin_id(format, entry.name.as_str()),
        name: entry.name.clone(),
        version: String::from_str("unknown"),
        description: Some(description(format)),
        author: None,
        icon_url,
    };
    InstalledPlugin {
        plugin,
        install_path: entry.path.clone(),
        format,
        enabled: true,
        related_paths,
    }
}

proof fn lemma_last_dot_of_joined(stem: Seq<char>, ext: Seq<char>, i: int)
    requires
        forall|k: int| 0 <= k < ext.len() ==> ext[k] != '.',
        stem.len() < i <= stem.len() + 1 + ext.len(),
    ensures
        last_dot_before(stem + "."@ + ext, i) == stem.len(),
    decreases i,
{
    reveal_strlit(".");
    let s = stem + "."@ + ext;
    if i > stem.len() + 1 {
        assert(s[i - 1] == ext[i - 1 - stem.len() - 1]);
        lemma_last_dot_of_joined(stem, ext, i - 1);
    } else {
        assert(s[i - 1] == '.');
    }
}

proof fn lemma_no_dot_in_extensions(format: PluginFormat, platform: Platform)
    ensures
        forall|k: int| 0 <= k < extension_of(format, platform).len() ==> extension_of(format, platform)[k] != '.',
{
    reveal_strlit("dll");
    reveal_strlit("vst3");
    reveal_strlit("component");
    reveal_strlit("aax");
    reveal_strlit("vst");
    reveal_strlit("aaxplugin");
}

proof fn lemma_plugin_entry_kept(s: Seq<DirEntryInfo>, format: PluginFormat, platform: Platform, i: int)
    requires
        0 <= i < s.len(),
        is_plugin_entry(s[i], format, platform),
    ensures
        plugin_entries_of(s, format, platform).contains((stem_part(s[i].name@), s[i].path@, s[i].kind)),
    decreases s.len(),
{
    let item = (stem_part(s[i].name@), s[i].path@, s[i].kind);
    let rest = plugin_entries_of(s.drop_last(), format, platform);
    if i == s.len() - 1 {
        assert(rest.push(item)[rest.len() as int] == item);
    } else {
        lemma_plugin_entry_kept(s.drop_last(), format, platform, i);
        let j = choose|j: int| 0 <= j < rest.len() && rest[j] == item;
        if is_plugin_entry(s.last(), format, platform) {
            assert(rest.push((stem_part(s.last().name@), s.last().path@, s.last().kind))[j] == item);
        }
    }
}

/// For every format: an entry of the format's kind named `<stem>.<extension>`
/// under a root is discovered, as the plugin `stem` at the entry's path.
pub proof fn lemma_artifact_discovered(
    entries: Seq<DirEntryInfo>,
    format: PluginFormat,
    platform: Platform,
    i: int,
    stem: Seq<char>,
)
    requires
        0 <= i < entries.len(),
        kind_fits(entries[i].kind, representation_of(format, platform)),
        stem.len() > 0,
        entries[i].name@ == stem + "."@ + extension_of(format, platform),
    ensures
        plugin_entries_of(entries, format, platform).contains((stem, entries[i].path@, entries[i].kind)),
{
    let name = entries[i].name@;
    let ext = extension_of(format, platform);
    reveal_strlit(".");
    lemma_no_dot_in_extensions(format, platform);
    lemma_last_dot_of_joined(stem, ext, name.len() as int);
    assert(extension_part(name) =~= ext);
    assert(stem_part(name) =~= stem);
    lemma_plugin_entry_kept(entries, format, platform, i);
}

} // verus!
