//! Finding a plugin's icon inside its bundle or beside it.
use vstd::prelude::*;
use crate::profile::{Platform, join, join_path, separator_of};
use crate::scanner::{DirEntryInfo, EntryKind, PluginEntry, extension_part, has_extension, split_extension, stem_part};
use crate::text::{
    concat, concat3, contains_seq, lower_of, lowercase, remove_char, remove_char_in, starts_with,
    str_contains, str_eq, str_starts_with,
};

verus! {

/// The directories inside a bundle that are searched for icons, in order.
pub open spec fn icon_subdirs() -> Seq<Seq<char>> {
    seq!["Contents/Resources"@, "Resources"@, "Contents"@]
}

/// The directories inside the bundle at `plugin_path` that may hold its icon.
pub open spec fn icon_search_dirs_of(plugin_path: Seq<char>, platform: Platform) -> Seq<Seq<char>> {
    icon_subdirs().map_values(|d: Seq<char>| join_path(plugin_path, d, separator_of(platform)))
}

/// The paths whose listings [`discover_plugin_icon`] takes for a bundle, in order.
pub fn icon_search_dirs(plugin_path: &str, platform: Platform) -> (r: Vec<String>)
    ensures
        r.deep_view() == icon_search_dirs_of(plugin_path@, platform),
{
    let mut dirs: Vec<String> = Vec::new();
    dirs.push(join(plugin_path, "Contents/Resources", platform));
    dirs.push(join(plugin_path, "Resources", platform));
    dirs.push(join(plugin_path, "Contents", platform));
    assert(dirs.deep_view() =~= icon_search_dirs_of(plugin_path@, platform));
    dirs
}

/// The plugin name as icon file names are matched against it: lowercase, without spaces.
pub open spec fn icon_key_of(name: Seq<char>) -> Seq<char> {
    remove_char(lower_of(name), ' ')
}

/// Extensions of icon files inside a bundle, compared in lowercase.
pub open spec fn is_bundle_icon_extension(ext: Seq<char>) -> bool {
    ext == "icns"@ || ext == "png"@ || ext == "ico"@ || ext == "jpg"@ || ext == "jpeg"@
}

/// A lowercased file stem that names the plugin, or is a conventional icon name.
pub open spec fn is_preferred_stem(stem: Seq<char>, key: Seq<char>) -> bool {
    contains_seq(stem, key) || stem == "icon"@ || stem == "logo"@ || stem == "appicon"@
        || starts_with(stem, "icon"@) || starts_with(stem, "logo"@)
}

/// An entry is an icon file; with `preferred_only`, one whose name is preferred.
pub open spec fn is_icon_entry(e: DirEntryInfo, key: Seq<char>, preferred_only: bool) -> bool {
    &&& e.kind == EntryKind::File
    &&& has_extension(e.name@)
    &&& is_bundle_icon_extension(lower_of(extension_part(e.name@)))
    &&& (preferred_only ==> is_preferred_stem(lower_of(stem_part(e.name@)), key))
}

/// The path of the first icon entry of a listing.
pub open spec fn first_icon_in(s: Seq<DirEntryInfo>, key: Seq<char>, preferred_only: bool) -> Option<Seq<char>>
    decreases s.len(),
{
    if s.len() == 0 {
        None
    } else if is_icon_entry(s[0], key, preferred_only) {
        Some(s[0].path@)
    } else {
        first_icon_in(s.drop_first(), key, preferred_only)
    }
}

/// The path of the first icon entry over listings in order; a missing listing holds none.
pub open spec fn first_icon_over(
    ls: Seq<Option<Vec<DirEntryInfo>>>,
    key: Seq<char>,
    preferred_only: bool,
) -> Option<Seq<char>>
    decreases ls.len(),
{
    if ls.len() == 0 {
        None
    } else {
        let here = match ls[0] {
            Some(v) => first_icon_in(v@, key, preferred_only),
            None => None,
        };
        match here {
            Some(p) => Some(p),
            None => first_icon_over(ls.drop_first(), key, preferred_only),
        }
    }
}

/// Extensions tried for an icon beside the plugin, in order.
pub open spec fn sibling_icon_extensions() -> Seq<Seq<char>> {
    seq!["png"@, "ico"@, "jpg"@, "jpeg"@]
}

/// The path of the first existing entry of a listing with this file name.
pub open spec fn entry_named(s: Seq<DirEntryInfo>, file_name: Seq<char>) -> Option<Seq<char>>
    decreases s.len(),
{
    if s.len() == 0 {
        None
    } else if s[0].name@ == file_name && s[0].kind != EntryKind::Dangling {
        Some(s[0].path@)
    } else {
        entry_named(s.drop_first(), file_name)
    }
}

/// The first icon beside the plugin, trying from the `i`-th extension on
/// `<name>.<ext>`, then `<key>.<ext>`.
pub open spec fn sibling_icon_from(
    siblings: Seq<DirEntryInfo>,
    name: Seq<char>,
    key: Seq<char>,
    i: int,
) -> Option<Seq<char>>
    decreases sibling_icon_extensions().len() - i,
{
    if i < 0 || i >= sibling_icon_extensions().len() {
        None
    } else {
        let ext = sibling_icon_extensions()[i];
        match entry_named(siblings, name + "."@ + ext) {
            Some(p) => Some(p),
            None => match entry_named(siblings, key + "."@ + ext) {
                Some(p) => Some(p),
                None => sibling_icon_from(siblings, name, key, i + 1),
            },
        }
    }
}

/// The icon path found for a plugin, before it is made a URL: inside a bundle
/// a preferred icon file, else any icon file; failing that, an icon beside it.
pub open spec fn icon_path_of(
    kind: EntryKind,
    name: Seq<char>,
    listings: Seq<Option<Vec<DirEntryInfo>>>,
    siblings: Seq<DirEntryInfo>,
) -> Option<Seq<char>> {
    let key = icon_key_of(name);
    let inside = if kind == EntryKind::Directory {
        match first_icon_over(listings, key, true) {
            Some(p) => Some(p),
            None => first_icon_over(listings, key, false),
        }
    } else {
        None
    };
    match inside {
        Some(p) => Some(p),
        None => sibling_icon_from(siblings, name, key, 0),
    }
}

/// The icon URL of a plugin.
pub open spec fn icon_url_of(
    kind: EntryKind,
    name: Seq<char>,
    listings: Seq<Option<Vec<DirEntryInfo>>>,
    siblings: Seq<DirEntryInfo>,
) -> Option<Seq<char>> {
    match icon_path_of(kind, name, listings, siblings) {
        Some(p) => Some("file://"@ + p),
        None => None,
    }
}

fn is_bundle_icon_ext(ext: &str) -> (r: bool)
    ensures
        r == is_bundle_icon_extension(ext@),
{
    str_eq(ext, "icns") || str_eq(ext, "png") || str_eq(ext, "ico") || str_eq(ext, "jpg")
        || str_eq(ext, "jpeg")
}

fn entry_is_icon(e: &DirEntryInfo, key: &str, preferred_only: bool) -> (r: bool)
    ensures
        r == is_icon_entry(*e, key@, preferred_only),
{
    if e.kind != EntryKind::File {
        return false;
    }
    match split_extension(e.name.as_str()) {
        None => false,
        Some((stem, ext)) => {
            let ext_lower = lowercase(ext.as_str());
            if !is_bundle_icon_ext(ext_lower.as_str()) {
                return false;
            }
            if !preferred_only {
                return true;
            }
            let s = lowercase(stem.as_str());
            let s = s.as_str();
            str_contains(s, key) || str_eq(s, "icon") || str_eq(s, "logo") || str_eq(s, "appicon")
                || str_starts_with(s, "icon") || str_starts_with(s, "logo")
        },
    }
}

fn first_icon_entry(entries: &Vec<DirEntryInfo>, key: &str, preferred_only: bool) -> (r: Option<String>)
    ensures
        r.deep_view() == first_icon_in(entries@, key@, preferred_only),
{
    let mut i: usize = 0;
    assert(entries@.subrange(0, entries@.len() as int) =~= entries@);
    while i < entries.len()
        invariant
            i <= entries@.len(),
            first_icon_in(entries@, key@, preferred_only) == first_icon_in(
                entries@.subrange(i as int, entries@.len() as int),
                key@,
                preferred_only,
            ),
        decreases entries@.len() - i,
    {
        assert(entries@.subrange(i as int, entries@.len() as int).drop_first() =~= entries@.subrange(
            i + 1,
            entries@.len() as int,
        ));
        if entry_is_icon(&entries[i], key, preferred_only) {
            return Some(entries[i].path.clone());
        }
        i = i + 1;
    }
    None
}

fn first_icon_in_listings(
    listings: &Vec<Option<Vec<DirEntryInfo>>>,
    key: &str,
    preferred_only: bool,
) -> (r: Option<String>)
    ensures
        r.deep_view() == first_icon_over(listings@, key@, preferred_only),
{
    let mut k: usize = 0;
    assert(listings@.subrange(0, listings@.len() as int) =~= listings@);
    while k < listings.len()
        invariant
            k <= listings@.len(),
            first_icon_over(listings@, key@, preferred_only) == first_icon_over(
                listings@.subrange(k as int, listings@.len() as int),
                key@,
                preferred_only,
            ),
        decreases listings@.len() - k,
    {
        assert(listings@.subrange(k as int, listings@.len() as int).drop_first()
            =~= listings@.subrange(k + 1, listings@.len() as int));
        match &listings[k] {
            Some(entries) => {
                let found = first_icon_entry(entries, key, preferred_only);
                if found.is_some() {
                    return found;
                }
            },
            None => {},
        }
        k = k + 1;
    }
    None
}

fn find_entry_named(entries: &Vec<DirEntryInfo>, file_name: &str) -> (r: Option<String>)
    ensures
        r.deep_view() == entry_named(entries@, file_name@),
{
    let mut i: usize = 0;
    assert(entries@.subrange(0, entries@.len() as int) =~= entries@);
    while i < entries.len()
        invariant
            i <= entries@.len(),
            entry_named(entries@, file_name@) == entry_named(
                entries@.subrange(i as int, entries@.len() as int),
                file_name@,
            ),
        decreases entries@.len() - i,
    {
        assert(entries@.subrange(i as int, entries@.len() as int).drop_first() =~= entries@.subrange(
            i + 1,
            entries@.len() as int,
        ));
        if str_eq(entries[i].name.as_str(), file_name) && entries[i].kind != EntryKind::Dangling {
            return Some(entries[i].path.clone());
        }
        i = i + 1;
    }
    None
}

fn sibling_icon_extension(i: usize) -> (r: &'static str)
    requires
        i < 4,
    ensures
        r@ == sibling_icon_extensions()[i as int],
{
    match i {
        0 => "png",
        1 => "ico",
        2 => "jpg",
        _ => "jpeg",
    }
}

fn find_sibling_icon(siblings: &Vec<DirEntryInfo>, name: &str, key: &str) -> (r: Option<String>)
    ensures
        r.deep_view() == sibling_icon_from(siblings@, name@, key@, 0),
{
    let mut i: usize = 0;
    while i < 4
        invariant
            i <= 4,
            sibling_icon_extensions().len() == 4,
            sibling_icon_from(siblings@, name@, key@, 0) == sibling_icon_from(
                siblings@,
                name@,
                key@,
                i as int,
            ),
        decreases 4 - i,
    {
        let ext = sibling_icon_extension(i);
        let by_name = find_entry_named(siblings, concat3(name, ".", ext).as_str());
        if by_name.is_some() {
            return by_name;
        }
        let by_key = find_entry_named(siblings, concat3(key, ".", ext).as_str());
        if by_key.is_some() {
            return by_key;
        }
        i = i + 1;
    }
    None
}

/// The icon of `plugin`, as a `file://` URL. For a bundle,
/// `listings` holds the listings of [`icon_search_dirs`] in order (`None` where
/// a directory is missing or unreadable); `siblings` is the listing of the
/// directory that holds the plugin.
pub fn discover_plugin_icon(
    plugin: &PluginEntry,
    listings: &Vec<Option<Vec<DirEntryInfo>>>,
    siblings: &Vec<DirEntryInfo>,
) -> (r: Option<String>)
    ensures
        r.deep_view() == icon_url_of(plugin.kind, plugin.name@, listings@, siblings@),
{
    let plugin_name = plugin.name.as_str();
    let lower = lowercase(plugin_name);
    let key = remove_char_in(lower.as_str(), ' ');
    let mut inside: Option<String> = None;
    if plugin.kind == EntryKind::Directory {
        inside = first_icon_in_listings(listings, key.as_str(), true);
        if inside.is_none() {
            inside = first_icon_in_listings(listings, key.as_str(), false);
        }
    }
    let found = match inside {
        Some(p) => Some(p),
        None => find_sibling_icon(siblings, plugin_name, key.as_str()),
    };
    match found {
        Some(p) => Some(concat("file://", p.as_str())),
        None => None,
    }
}

} // verus!
