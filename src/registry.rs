//! Putting the roots' results together, and reconciling them with what is on disk.
use vstd::prelude::*;
use crate::plugin::{InstalledPlugin, InstalledPluginView, plugins_view};
use crate::discovery::{discover_plugin_icon, icon_url_of};
use crate::plugin::PluginFormat;
use crate::related::{RelatedProbes, discover_related_paths, related_paths_of};
use crate::plugin::PluginView;
use crate::profile::{Platform, extension_of, representation_of};
use crate::scanner::{
    DirEntryInfo, EntryKind, PluginEntry, build_installed_plugin, description_of, entries_view, kind_fits,
    lemma_artifact_discovered, plugin_entries_of, plugin_id_of,
};
use crate::sharing::{share_icons_between_formats, shared_icons};
use crate::text::str_eq;

verus! {

/// The plugins of the readable roots, root after root; an unreadable root
/// (`None`) contributes nothing.
pub open spec fn readable_plugins(s: Seq<Option<Vec<InstalledPlugin>>>) -> Seq<InstalledPlugin>
    decreases s.len(),
{
    if s.len() == 0 {
        seq![]
    } else {
        readable_plugins(s.drop_last()) + match s.last() {
            Some(v) => v@,
            None => seq![],
        }
    }
}

/// The indices of the unreadable roots, in order.
pub open spec fn unreadable_indices(s: Seq<Option<Vec<InstalledPlugin>>>) -> Seq<usize>
    decreases s.len(),
{
    if s.len() == 0 {
        seq![]
    } else if s.last().is_none() {
        unreadable_indices(s.drop_last()).push((s.len() - 1) as usize)
    } else {
        unreadable_indices(s.drop_last())
    }
}

/// The outcome of a scan over all roots.
#[derive(Debug)]
pub struct ScanReport {
    /// Every plugin found, after icons were shared across formats.
    pub plugins: Vec<InstalledPlugin>,
    /// The indices of the roots that could not be read; each deserves a warning.
    pub unreadable_roots: Vec<usize>,
}

/// Combines the per-root results of a scan, in root order: `None` stands for a
/// root that could not be read, which is reported and otherwise skipped. Icons
/// are then shared across formats.
pub fn scan_installed(roots: Vec<Option<Vec<InstalledPlugin>>>) -> (r: ScanReport)
    ensures
        plugins_view(r.plugins@) == shared_icons(plugins_view(readable_plugins(roots@))),
        r.unreadable_roots@ == unreadable_indices(roots@),
{
    let ghost all = roots@;
    let n = roots.len();
    let mut rest = roots;
    let mut installed: Vec<InstalledPlugin> = Vec::new();
    let mut unreadable: Vec<usize> = Vec::new();
    let mut i: usize = 0;
    while rest.len() > 0
        invariant
            n == all.len(),
            i + rest@.len() == all.len(),
            rest@ == all.subrange(i as int, all.len() as int),
            installed@ == readable_plugins(all.subrange(0, i as int)),
            unreadable@ == unreadable_indices(all.subrange(0, i as int)),
        decreases rest@.len(),
    {
        let outcome = rest.remove(0);
        assert(all.subrange(0, i + 1).drop_last() =~= all.subrange(0, i as int));
        assert(all.subrange(0, i + 1).last() == outcome);
        match outcome {
            Some(mut plugins) => {
                installed.append(&mut plugins);
            },
            None => {
                unreadable.push(i);
            },
        }
        assert(rest@ =~= all.subrange(i + 1, all.len() as int));
        i = i + 1;
    }
    assert(all.subrange(0, all.len() as int) =~= all);
    share_icons_between_formats(&mut installed);
    ScanReport { plugins: installed, unreadable_roots: unreadable }
}

proof fn lemma_readable_plugins_concat(a: Seq<Option<Vec<InstalledPlugin>>>, b: Seq<Option<Vec<InstalledPlugin>>>)
    ensures
        readable_plugins(a + b) == readable_plugins(a) + readable_plugins(b),
    decreases b.len(),
{
    if b.len() == 0 {
        assert(a + b =~= a);
        assert(readable_plugins(a) + readable_plugins(b) =~= readable_plugins(a));
    } else {
        lemma_readable_plugins_concat(a, b.drop_last());
        assert((a + b).drop_last() =~= a + b.drop_last());
        let tail = match b.last() {
            Some(v) => v@,
            None => seq![],
        };
        assert(readable_plugins(a) + readable_plugins(b.drop_last()) + tail =~= readable_plugins(a) + (
        readable_plugins(b.drop_last()) + tail));
    }
}

/// A root that cannot be read takes nothing away from the other roots: the
/// plugins gathered are those of the roots before it followed by those after it.
pub proof fn lemma_unreadable_root_isolated(s: Seq<Option<Vec<InstalledPlugin>>>, f: int)
    requires
        0 <= f < s.len(),
        s[f].is_none(),
    ensures
        readable_plugins(s) == readable_plugins(s.subrange(0, f)) + readable_plugins(
            s.subrange(f + 1, s.len() as int),
        ),
{
    let a = s.subrange(0, f);
    let b = s.subrange(f + 1, s.len() as int);
    let none: Seq<Option<Vec<InstalledPlugin>>> = seq![s[f]];
    assert(s =~= a + none + b);
    lemma_readable_plugins_concat(a + none, b);
    lemma_readable_plugins_concat(a, none);
    assert(none.drop_last() =~= Seq::<Option<Vec<InstalledPlugin>>>::empty());
    assert(readable_plugins(none.drop_last()) == Seq::<InstalledPlugin>::empty());
    assert(none.last().is_none());
    assert(readable_plugins(none) =~= Seq::<InstalledPlugin>::empty());
    assert(readable_plugins(a) + readable_plugins(none) =~= readable_plugins(a));
}

/// A plugin owns its install path and its preset and library locations. Support
/// locations and preference files lie outside the plugin roots and are not counted.
pub open spec fn owns(p: InstalledPluginView, path: Seq<char>) -> bool {
    p.install_path == path || p.related_paths.preset_locations.contains(path)
        || p.related_paths.library_locations.contains(path)
}

/// Some plugin of `installed` owns `path`.
pub open spec fn is_owned(installed: Seq<InstalledPluginView>, path: Seq<char>) -> bool {
    exists|i: int| 0 <= i < installed.len() && owns(#[trigger] installed[i], path)
}

/// The entries of one listing that no plugin owns, in order.
pub open spec fn orphans_in(installed: Seq<InstalledPluginView>, s: Seq<DirEntryInfo>) -> Seq<Seq<char>>
    decreases s.len(),
{
    if s.len() == 0 {
        seq![]
    } else {
        let rest = orphans_in(installed, s.drop_last());
        if is_owned(installed, s.last().path@) {
            rest
        } else {
            rest.push(s.last().path@)
        }
    }
}

/// The orphans of every readable root listing, root after root.
pub open spec fn orphans_over(
    installed: Seq<InstalledPluginView>,
    ls: Seq<Option<Vec<DirEntryInfo>>>,
) -> Seq<Seq<char>>
    decreases ls.len(),
{
    if ls.len() == 0 {
        seq![]
    } else {
        orphans_over(installed, ls.drop_last()) + match ls.last() {
            Some(v) => orphans_in(installed, v@),
            None => seq![],
        }
    }
}

/// Whether `path` is one of `paths`.
fn list_contains(paths: &Vec<String>, path: &str) -> (r: bool)
    ensures
        r == paths.deep_view().contains(path@),
{
    let mut i: usize = 0;
    while i < paths.len()
        invariant
            i <= paths@.len(),
            forall|j: int| 0 <= j < i ==> paths.deep_view()[j] != path@,
        decreases paths@.len() - i,
    {
        if str_eq(paths[i].as_str(), path) {
            assert(paths.deep_view()[i as int] == path@);
            return true;
        }
        i = i + 1;
    }
    false
}

fn plugin_owns(p: &InstalledPlugin, path: &str) -> (r: bool)
    ensures
        r == owns(p@, path@),
{
    str_eq(p.install_path.as_str(), path) || list_contains(&p.related_paths.preset_locations, path)
        || list_contains(&p.related_paths.library_locations, path)
}

fn owned_by_any(installed: &Vec<InstalledPlugin>, path: &str) -> (r: bool)
    ensures
        r == is_owned(plugins_view(installed@), path@),
{
    let ghost v = plugins_view(installed@);
    let mut i: usize = 0;
    while i < installed.len()
        invariant
            i <= installed@.len(),
            v == plugins_view(installed@),
            forall|j: int| 0 <= j < i ==> !owns(#[trigger] v[j], path@),
        decreases installed@.len() - i,
    {
        if plugin_owns(&installed[i], path) {
            assert(owns(v[i as int], path@));
            return true;
        }
        i = i + 1;
    }
    false
}

/// Entries of the plugin roots that belong to no discovered plugin, such as the
/// leftovers of uninstalled plugins. `root_listings` holds each root's listing in
/// order, `None` where the root could not be read: such a root reports nothing.
/// The comparison is one level deep, so the result is advisory.
pub fn detect_orphaned_files(
    installed: &Vec<InstalledPlugin>,
    root_listings: &Vec<Option<Vec<DirEntryInfo>>>,
) -> (r: Vec<String>)
    ensures
        r.deep_view() == orphans_over(plugins_view(installed@), root_listings@),
{
    let ghost known = plugins_view(installed@);
    let mut orphaned: Vec<String> = Vec::new();
    let mut k: usize = 0;
    while k < root_listings.len()
        invariant
            k <= root_listings@.len(),
            known == plugins_view(installed@),
            orphaned.deep_view() == orphans_over(known, root_listings@.subrange(0, k as int)),
        decreases root_listings@.len() - k,
    {
        assert(root_listings@.subrange(0, k + 1).drop_last() =~= root_listings@.subrange(0, k as int));
        match &root_listings[k] {
            Some(entries) => {
                let ghost before = orphaned.deep_view();
                let mut i: usize = 0;
                while i < entries.len()
                    invariant
                        i <= entries@.len(),
                        known == plugins_view(installed@),
                        orphaned.deep_view() == before + orphans_in(known, entries@.subrange(0, i as int)),
                    decreases entries@.len() - i,
                {
                    assert(entries@.subrange(0, i + 1).drop_last() =~= entries@.subrange(0, i as int));
                    assert(entries@.subrange(0, i + 1).last() == entries@[i as int]);
                    let ghost prev = orphans_in(known, entries@.subrange(0, i as int));
                    let owned = owned_by_any(installed, entries[i].path.as_str());
                    assert(orphans_in(known, entries@.subrange(0, i + 1)) == if owned {
                        prev
                    } else {
                        prev.push(entries@[i as int].path@)
                    });
                    if !owned {
                        let p = entries[i].path.clone();
                        orphaned.push(p);
                        assert(orphaned.deep_view() =~= (before + prev).push(entries@[i as int].path@));
                    }
                    assert(orphaned.deep_view() =~= before + orphans_in(known, entries@.subrange(0, i + 1)));
                    i = i + 1;
                }
                assert(entries@.subrange(0, entries@.len() as int) =~= entries@);
            },
            None => {
                assert(orphaned.deep_view() =~= orphans_over(known, root_listings@.subrange(0, k + 1)));
            },
        }
        k = k + 1;
    }
    assert(root_listings@.subrange(0, root_listings@.len() as int) =~= root_listings@);
    orphaned
}

/// Some entry of the listing has this path.
pub open spec fn listed_in(s: Seq<DirEntryInfo>, path: Seq<char>) -> bool {
    exists|k: int| 0 <= k < s.len() && (#[trigger] s[k]).path@ == path
}

proof fn lemma_push_contains(s: Seq<Seq<char>>, y: Seq<char>, x: Seq<char>)
    ensures
        s.push(y).contains(x) <==> (s.contains(x) || y == x),
{
    if s.contains(x) {
        let i = choose|i: int| 0 <= i < s.len() && s[i] == x;
        assert(s.push(y)[i] == x);
    }
    if y == x {
        assert(s.push(y)[s.len() as int] == x);
    }
    if s.push(y).contains(x) {
        let i = choose|i: int| 0 <= i < s.push(y).len() && s.push(y)[i] == x;
        if i < s.len() {
            assert(s[i] == x);
        }
    }
}

proof fn lemma_concat_contains(a: Seq<Seq<char>>, b: Seq<Seq<char>>, x: Seq<char>)
    ensures
        (a + b).contains(x) <==> (a.contains(x) || b.contains(x)),
{
    if a.contains(x) {
        let i = choose|i: int| 0 <= i < a.len() && a[i] == x;
        assert((a + b)[i] == x);
    }
    if b.contains(x) {
        let i = choose|i: int| 0 <= i < b.len() && b[i] == x;
        assert((a + b)[a.len() + i] == x);
    }
    if (a + b).contains(x) {
        let i = choose|i: int| 0 <= i < (a + b).len() && (a + b)[i] == x;
        if i < a.len() {
            assert(a[i] == x);
        } else {
            assert(b[i - a.len()] == x);
        }
    }
}

proof fn lemma_orphans_in_contains(installed: Seq<InstalledPluginView>, s: Seq<DirEntryInfo>, x: Seq<char>)
    ensures
        orphans_in(installed, s).contains(x) <==> (listed_in(s, x) && !is_owned(installed, x)),
    decreases s.len(),
{
    if s.len() == 0 {
        assert(!orphans_in(installed, s).contains(x));
    } else {
        let init = s.drop_last();
        let rest = orphans_in(installed, init);
        lemma_orphans_in_contains(installed, init, x);
        lemma_push_contains(rest, s.last().path@, x);
        if listed_in(init, x) {
            let k = choose|k: int| 0 <= k < init.len() && (#[trigger] init[k]).path@ == x;
            assert(s[k] == init[k]);
        }
        if listed_in(s, x) {
            let k = choose|k: int| 0 <= k < s.len() && (#[trigger] s[k]).path@ == x;
            if k < init.len() {
                assert(init[k] == s[k]);
            }
        }
    }
}

proof fn lemma_orphans_over_contains(
    installed: Seq<InstalledPluginView>,
    ls: Seq<Option<Vec<DirEntryInfo>>>,
    x: Seq<char>,
)
    ensures
        orphans_over(installed, ls).contains(x) <==> (!is_owned(installed, x) && exists|j: int|
            0 <= j < ls.len() && (#[trigger] ls[j]).is_some() && listed_in(ls[j].unwrap()@, x)),
    decreases ls.len(),
{
    if ls.len() == 0 {
        assert(!orphans_over(installed, ls).contains(x));
    } else {
        let init = ls.drop_last();
        lemma_orphans_over_contains(installed, init, x);
        let here = match ls.last() {
            Some(v) => orphans_in(installed, v@),
            None => seq![],
        };
        lemma_concat_contains(orphans_over(installed, init), here, x);
        if let Some(v) = ls.last() {
            lemma_orphans_in_contains(installed, v@, x);
        } else {
            assert(!here.contains(x));
        }
        if exists|j: int| 0 <= j < init.len() && (#[trigger] init[j]).is_some() && listed_in(init[j].unwrap()@, x) {
            let j = choose|j: int| 0 <= j < init.len() && (#[trigger] init[j]).is_some() && listed_in(init[j].unwrap()@, x);
            assert(ls[j] == init[j]);
        }
        if exists|j: int| 0 <= j < ls.len() && (#[trigger] ls[j]).is_some() && listed_in(ls[j].unwrap()@, x) {
            let j = choose|j: int| 0 <= j < ls.len() && (#[trigger] ls[j]).is_some() && listed_in(ls[j].unwrap()@, x);
            if j < init.len() {
                assert(init[j] == ls[j]);
            }
        }
    }
}

/// An entry of a readable root is reported as an orphan exactly when no plugin
/// owns it: a known plugin's own path never is, an unrelated sibling always is.
pub proof fn lemma_orphan_iff_unowned(
    installed: Seq<InstalledPluginView>,
    root_listings: Seq<Option<Vec<DirEntryInfo>>>,
    j: int,
    k: int,
)
    requires
        0 <= j < root_listings.len(),
        root_listings[j].is_some(),
        0 <= k < root_listings[j].unwrap()@.len(),
    ensures
        orphans_over(installed, root_listings).contains(root_listings[j].unwrap()@[k].path@)
            <==> !is_owned(installed, root_listings[j].unwrap()@[k].path@),
{
    let x = root_listings[j].unwrap()@[k].path@;
    lemma_orphans_over_contains(installed, root_listings, x);
    assert(listed_in(root_listings[j].unwrap()@, x));
}

/// Nothing is reported that a plugin owns or that no readable root lists.
pub proof fn lemma_orphans_are_listed_and_unowned(
    installed: Seq<InstalledPluginView>,
    root_listings: Seq<Option<Vec<DirEntryInfo>>>,
    x: Seq<char>,
)
    requires
        orphans_over(installed, root_listings).contains(x),
    ensures
        !is_owned(installed, x),
        exists|j: int| 0 <= j < root_listings.len() && (#[trigger] root_listings[j]).is_some()
            && listed_in(root_listings[j].unwrap()@, x),
{
    lemma_orphans_over_contains(installed, root_listings, x);
}

/// The related locations whose contents are listed recursively when a plugin's
/// files are enumerated: presets, then libraries, then support folders.
pub open spec fn expandable_of(p: InstalledPluginView) -> Seq<Seq<char>> {
    p.related_paths.preset_locations + p.related_paths.library_locations
        + p.related_paths.support_locations
}

fn extend_cloned(out: &mut Vec<String>, more: &Vec<String>)
    ensures
        final(out).deep_view() == old(out).deep_view() + more.deep_view(),
{
    let ghost start = out.deep_view();
    let mut i: usize = 0;
    while i < more.len()
        invariant
            i <= more@.len(),
            out.deep_view() == start + more.deep_view().subrange(0, i as int),
        decreases more@.len() - i,
    {
        let c = more[i].clone();
        assert(c@ == more.deep_view()[i as int]);
        let ghost before = out.deep_view();
        out.push(c);
        assert(out.deep_view() =~= before.push(more.deep_view()[i as int]));
        assert(more.deep_view().subrange(0, i + 1) =~= more.deep_view().subrange(0, i as int).push(
            more.deep_view()[i as int],
        ));
        assert(out.deep_view() =~= start + more.deep_view().subrange(0, i + 1));
        i = i + 1;
    }
    assert(more.deep_view().subrange(0, more@.len() as int) =~= more.deep_view());
}

/// The locations of `plugin` to list recursively, in the order that
/// [`enumerate_plugin_files`] takes their contents.
pub fn directories_to_expand(plugin: &InstalledPlugin) -> (r: Vec<String>)
    ensures
        r.deep_view() == expandable_of(plugin@),
{
    let mut dirs: Vec<String> = Vec::new();
    extend_cloned(&mut dirs, &plugin.related_paths.preset_locations);
    extend_cloned(&mut dirs, &plugin.related_paths.library_locations);
    extend_cloned(&mut dirs, &plugin.related_paths.support_locations);
    assert(dirs.deep_view() =~= expandable_of(plugin@));
    dirs
}

/// The paths of a sequence of lists, one list after another.
pub open spec fn flatten_paths(s: Seq<Vec<String>>) -> Seq<Seq<char>>
    decreases s.len(),
{
    if s.len() == 0 {
        seq![]
    } else {
        flatten_paths(s.drop_last()) + s.last().deep_view()
    }
}

/// Every file that belongs to `plugin`, for backup or removal: its install
/// path, then the contents of each of [`directories_to_expand`] as listed
/// recursively in `expanded` (one list per location, in order), then its
/// preference files.
pub fn enumerate_plugin_files(plugin: &InstalledPlugin, expanded: &Vec<Vec<String>>) -> (r: Vec<String>)
    requires
        expanded@.len() == expandable_of(plugin@).len(),
    ensures
        r.deep_view() == seq![plugin@.install_path] + flatten_paths(expanded@)
            + plugin@.related_paths.preference_files,
{
    let mut files: Vec<String> = Vec::new();
    files.push(plugin.install_path.clone());
    assert(files.deep_view() =~= seq![plugin@.install_path]);
    let mut k: usize = 0;
    while k < expanded.len()
        invariant
            k <= expanded@.len(),
            files.deep_view() == seq![plugin@.install_path] + flatten_paths(expanded@.subrange(0, k as int)),
        decreases expanded@.len() - k,
    {
        assert(expanded@.subrange(0, k + 1).drop_last() =~= expanded@.subrange(0, k as int));
        extend_cloned(&mut files, &expanded[k]);
        assert(files.deep_view() =~= seq![plugin@.install_path] + flatten_paths(expanded@.subrange(0, k + 1)));
        k = k + 1;
    }
    assert(expanded@.subrange(0, expanded@.len() as int) =~= expanded@);
    extend_cloned(&mut files, &plugin.related_paths.preference_files);
    files
}

/// The record of the plugin `found`, with the icon `icon_url_of` picks and the
/// related paths `probes` found.
pub open spec fn assembled_view(
    found: PluginEntry,
    format: PluginFormat,
    listings: Seq<Option<Vec<DirEntryInfo>>>,
    siblings: Seq<DirEntryInfo>,
    probes: RelatedProbes,
) -> InstalledPluginView {
    InstalledPluginView {
        plugin: PluginView {
            id: plugin_id_of(format, found.name@),
            name: found.name@,
            version: "unknown"@,
            description: Some(description_of(format)),
            author: None,
            icon_url: icon_url_of(found.kind, found.name@, listings, siblings),
        },
        install_path: found.path@,
        format,
        enabled: true,
        related_paths: related_paths_of(probes),
    }
}

/// The record of a plugin found in a root listing (`siblings`), with its icon
/// looked for in `listings` (the listings of its bundle's icon directories)
/// and beside it, and its related paths taken from `probes`.
pub fn assemble_plugin(
    found: &PluginEntry,
    format: PluginFormat,
    listings: &Vec<Option<Vec<DirEntryInfo>>>,
    siblings: &Vec<DirEntryInfo>,
    probes: &RelatedProbes,
) -> (r: InstalledPlugin)
    ensures
        r@ == assembled_view(*found, format, listings@, siblings@, *probes),
{
    let icon = discover_plugin_icon(found, listings, siblings);
    let related = discover_related_paths(probes);
    build_installed_plugin(found, format, icon, related)
}

/// The plugins of one root, assembled one for each plugin entry `found` of its
/// listing `siblings`, in order; `listings[i]` and `probes[i]` belong to `found[i]`.
pub fn assemble_root(
    found: &Vec<PluginEntry>,
    format: PluginFormat,
    siblings: &Vec<DirEntryInfo>,
    listings: &Vec<Vec<Option<Vec<DirEntryInfo>>>>,
    probes: &Vec<RelatedProbes>,
) -> (r: Vec<InstalledPlugin>)
    requires
        listings@.len() == found@.len(),
        probes@.len() == found@.len(),
    ensures
        r@.len() == found@.len(),
        forall|i: int| 0 <= i < found@.len() ==> (#[trigger] r@[i])@ == assembled_view(
            found@[i],
            format,
            listings@[i]@,
            siblings@,
            probes@[i],
        ),
{
    let mut out: Vec<InstalledPlugin> = Vec::new();
    let mut i: usize = 0;
    while i < found.len()
        invariant
            i <= found@.len(),
            listings@.len() == found@.len(),
            probes@.len() == found@.len(),
            out@.len() == i,
            forall|k: int| 0 <= k < i ==> (#[trigger] out@[k])@ == assembled_view(
                found@[k],
                format,
                listings@[k]@,
                siblings@,
                probes@[k],
            ),
        decreases found@.len() - i,
    {
        out.push(assemble_plugin(&found[i], format, &listings[i], siblings, &probes[i]));
        i = i + 1;
    }
    out
}

/// A root's plugins stand one for each plugin entry of its listing, in order,
/// at the entry's path, in the root's format, under the id of the entry's name.
pub open spec fn assembled_from(
    plugins: Seq<InstalledPluginView>,
    found: Seq<(Seq<char>, Seq<char>, EntryKind)>,
    format: PluginFormat,
) -> bool {
    &&& plugins.len() == found.len()
    &&& forall|i: int| 0 <= i < plugins.len() ==> {
        &&& (#[trigger] plugins[i]).install_path == found[i].1
        &&& plugins[i].format == format
        &&& plugins[i].plugin.id == plugin_id_of(format, found[i].0)
    }
}

/// What [`assemble_root`] returns is assembled from the plugin entries it is given.
pub proof fn lemma_assemble_root_matches(
    found: Seq<PluginEntry>,
    plugins: Seq<InstalledPlugin>,
    format: PluginFormat,
    listings: Seq<Vec<Option<Vec<DirEntryInfo>>>>,
    siblings: Seq<DirEntryInfo>,
    probes: Seq<RelatedProbes>,
)
    requires
        plugins.len() == found.len(),
        forall|i: int| 0 <= i < found.len() ==> (#[trigger] plugins[i])@ == assembled_view(
            found[i],
            format,
            listings[i]@,
            siblings,
            probes[i],
        ),
    ensures
        assembled_from(plugins_view(plugins), entries_view(found), format),
{
    assert forall|i: int| 0 <= i < plugins_view(plugins).len() implies {
        &&& (#[trigger] plugins_view(plugins)[i]).install_path == entries_view(found)[i].1
        &&& plugins_view(plugins)[i].format == format
        &&& plugins_view(plugins)[i].plugin.id == plugin_id_of(format, entries_view(found)[i].0)
    } by {
        assert(plugins_view(plugins)[i] == plugins[i]@);
    }
}

/// For every format: an entry of the format's kind named `<stem>.<extension>`
/// in a readable root whose plugins were assembled from its listing is among
/// the plugins a scan reports, at the entry's path, in that format, with the id
/// made of the format's tag and the lowercased stem with dashes for spaces.
pub proof fn lemma_artifact_reported(
    roots: Seq<Option<Vec<InstalledPlugin>>>,
    j: int,
    listing: Seq<DirEntryInfo>,
    format: PluginFormat,
    platform: Platform,
    i: int,
    stem: Seq<char>,
)
    requires
        0 <= j < roots.len(),
        roots[j].is_some(),
        assembled_from(plugins_view(roots[j].unwrap()@), plugin_entries_of(listing, format, platform), format),
        0 <= i < listing.len(),
        kind_fits(listing[i].kind, representation_of(format, platform)),
        stem.len() > 0,
        listing[i].name@ == stem + "."@ + extension_of(format, platform),
    ensures
        exists|m: int|
            0 <= m < shared_icons(plugins_view(readable_plugins(roots))).len() && {
                let p = #[trigger] shared_icons(plugins_view(readable_plugins(roots)))[m];
                &&& p.install_path == listing[i].path@
                &&& p.format == format
                &&& p.plugin.id == plugin_id_of(format, stem)
            },
{
    let found = plugin_entries_of(listing, format, platform);
    let item = (stem, listing[i].path@, listing[i].kind);
    lemma_artifact_discovered(listing, format, platform, i, stem);
    let q = choose|q: int| 0 <= q < found.len() && found[q] == item;
    let v = roots[j].unwrap()@;
    assert(plugins_view(v)[q] == v[q]@);
    let a = roots.subrange(0, j);
    let b = roots.subrange(j + 1, roots.len() as int);
    let mid: Seq<Option<Vec<InstalledPlugin>>> = seq![roots[j]];
    assert(roots =~= a + mid + b);
    lemma_readable_plugins_concat(a + mid, b);
    lemma_readable_plugins_concat(a, mid);
    assert(mid.drop_last() =~= Seq::<Option<Vec<InstalledPlugin>>>::empty());
    assert(readable_plugins(mid.drop_last()) == Seq::<InstalledPlugin>::empty());
    assert(readable_plugins(mid) =~= v);
    let all = readable_plugins(roots);
    let m = readable_plugins(a).len() + q;
    assert(all =~= readable_plugins(a) + v + readable_plugins(b));
    assert(all[m] == v[q]);
    let shared = shared_icons(plugins_view(all));
    assert(plugins_view(all)[m] == all[m]@);
    assert(shared[m].install_path == listing[i].path@);
    assert(shared[m].format == format);
    assert(shared[m].plugin.id == plugin_id_of(format, stem));
}
} // verus!
