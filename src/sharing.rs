//! Lending VST3 icons to VST2 plugins of the same normalized name.
use vstd::prelude::*;
use crate::names::{normalize_plugin_name, normalized_name};
use crate::plugin::{InstalledPlugin, InstalledPluginView, PluginFormat, PluginView, plugins_view};
use crate::text::str_eq;

verus! {

/// The icon of the last VST3 plugin of `s` that has one and whose normalized name is `key`.
pub open spec fn vst3_icon_in(s: Seq<InstalledPluginView>, key: Seq<char>) -> Option<Seq<char>>
    decreases s.len(),
{
    if s.len() == 0 {
        None
    } else {
        let p = s.last();
        if p.format == PluginFormat::VST3 && p.plugin.icon_url.is_some()
            && normalized_name(p.plugin.name) == key {
            p.plugin.icon_url
        } else {
            vst3_icon_in(s.drop_last(), key)
        }
    }
}

/// The icon a plugin has after sharing within `all`: a VST2 plugin without an icon
/// takes the icon of a VST3 plugin of the same normalized name; every other
/// plugin keeps its own.
pub open spec fn shared_icon(p: InstalledPluginView, all: Seq<InstalledPluginView>) -> Option<Seq<char>> {
    if p.format == PluginFormat::VST2 && p.plugin.icon_url.is_none() {
        vst3_icon_in(all, normalized_name(p.plugin.name))
    } else {
        p.plugin.icon_url
    }
}

/// `p` with its icon replaced by `icon`.
pub open spec fn with_icon(p: InstalledPluginView, icon: Option<Seq<char>>) -> InstalledPluginView {
    InstalledPluginView {
        plugin: PluginView {
            id: p.plugin.id,
            name: p.plugin.name,
            version: p.plugin.version,
            description: p.plugin.description,
            author: p.plugin.author,
            icon_url: icon,
        },
        install_path: p.install_path,
        format: p.format,
        enabled: p.enabled,
        related_paths: p.related_paths,
    }
}

/// The plugins after the sharing pass.
pub open spec fn shared_icons(all: Seq<InstalledPluginView>) -> Seq<InstalledPluginView> {
    all.map_values(|p: InstalledPluginView| with_icon(p, shared_icon(p, all)))
}

/// A normalized VST3 name and its icon.
struct IconOffer {
    key: String,
    icon: String,
}

/// The (normalized name, icon) pairs of the VST3 plugins that have an icon, in order.
spec fn offers_of(s: Seq<InstalledPluginView>) -> Seq<(Seq<char>, Seq<char>)>
    decreases s.len(),
{
    if s.len() == 0 {
        seq![]
    } else {
        let p = s.last();
        let rest = offers_of(s.drop_last());
        if p.format == PluginFormat::VST3 && p.plugin.icon_url.is_some() {
            rest.push((normalized_name(p.plugin.name), p.plugin.icon_url.unwrap()))
        } else {
            rest
        }
    }
}

/// The icon of the last offer under `key`.
spec fn last_offer(t: Seq<(Seq<char>, Seq<char>)>, key: Seq<char>) -> Option<Seq<char>>
    decreases t.len(),
{
    if t.len() == 0 {
        None
    } else if t.last().0 == key {
        Some(t.last().1)
    } else {
        last_offer(t.drop_last(), key)
    }
}

spec fn offers_view(t: Seq<IconOffer>) -> Seq<(Seq<char>, Seq<char>)> {
    t.map_values(|o: IconOffer| (o.key@, o.icon@))
}

proof fn lemma_offers_match(s: Seq<InstalledPluginView>, key: Seq<char>)
    ensures
        last_offer(offers_of(s), key) == vst3_icon_in(s, key),
    decreases s.len(),
{
    if s.len() > 0 {
        let p = s.last();
        let rest = offers_of(s.drop_last());
        lemma_offers_match(s.drop_last(), key);
        if p.format == PluginFormat::VST3 && p.plugin.icon_url.is_some() {
            let o = (normalized_name(p.plugin.name), p.plugin.icon_url.unwrap());
            assert(rest.push(o).drop_last() =~= rest);
        }
    }
}

fn collect_offers(plugins: &Vec<InstalledPlugin>) -> (r: Vec<IconOffer>)
    ensures
        offers_view(r@) == offers_of(plugins_view(plugins@)),
{
    let mut offers: Vec<IconOffer> = Vec::new();
    let mut i: usize = 0;
    while i < plugins.len()
        invariant
            i <= plugins@.len(),
            offers_view(offers@) == offers_of(plugins_view(plugins@.subrange(0, i as int))),
        decreases plugins@.len() - i,
    {
        let p = &plugins[i];
        assert(plugins_view(plugins@.subrange(0, i + 1)).drop_last() =~= plugins_view(
            plugins@.subrange(0, i as int),
        ));
        assert(plugins_view(plugins@.subrange(0, i + 1)).last() == p@);
        if p.format == PluginFormat::VST3 {
            match &p.plugin.icon_url {
                Some(icon) => {
                    let key = normalize_plugin_name(p.plugin.name.as_str());
                    offers.push(IconOffer { key, icon: icon.clone() });
                    assert(offers_view(offers@) =~= offers_of(
                        plugins_view(plugins@.subrange(0, i + 1)),
                    ));
                },
                None => {},
            }
        }
        i = i + 1;
    }
    assert(plugins@.subrange(0, plugins@.len() as int) =~= plugins@);
    offers
}

fn find_offer(offers: &Vec<IconOffer>, key: &str) -> (r: Option<String>)
    ensures
        r.deep_view() == last_offer(offers_view(offers@), key@),
{
    let mut j: usize = offers.len();
    assert(offers@.subrange(0, j as int) =~= offers@);
    while j > 0
        invariant
            j <= offers@.len(),
            last_offer(offers_view(offers@), key@) == last_offer(
                offers_view(offers@.subrange(0, j as int)),
                key@,
            ),
        decreases j,
    {
        assert(offers_view(offers@.subrange(0, j as int)).drop_last() =~= offers_view(
            offers@.subrange(0, j - 1),
        ));
        if str_eq(offers[j - 1].key.as_str(), key) {
            return Some(offers[j - 1].icon.clone());
        }
        j = j - 1;
    }
    None
}

/// Gives each VST2 plugin without an icon the icon of a VST3 plugin with the same
/// normalized name (the last such one, where there are several). Nothing else
/// changes: AU and AAX plugins neither give nor take icons.
pub fn share_icons_between_formats(plugins: &mut Vec<InstalledPlugin>)
    ensures
        plugins_view(final(plugins)@) == shared_icons(plugins_view(old(plugins)@)),
{
    let ghost start = plugins_view(plugins@);
    let offers = collect_offers(plugins);
    let n = plugins.len();
    let mut i: usize = 0;
    while i < n
        invariant
            n == plugins@.len(),
            n == start.len(),
            i <= n,
            offers_view(offers@) == offers_of(start),
            forall|j: int| 0 <= j < i ==> (#[trigger] plugins@[j])@ == with_icon(
                start[j],
                shared_icon(start[j], start),
            ),
            forall|j: int| i <= j < n ==> (#[trigger] plugins@[j])@ == start[j],
        decreases n - i,
    {
        if plugins[i].format == PluginFormat::VST2 && plugins[i].plugin.icon_url.is_none() {
            let key = normalize_plugin_name(plugins[i].plugin.name.as_str());
            let found = find_offer(&offers, key.as_str());
            proof {
                lemma_offers_match(start, key@);
            }
            plugins[i].plugin.icon_url = found;
        }
        assert(plugins@[i as int]@ =~= with_icon(start[i as int], shared_icon(start[i as int], start)));
        i = i + 1;
    }
    assert(plugins_view(plugins@) =~= shared_icons(start));
}

/// `p` is a VST3 plugin with an icon whose normalized name is `key`.
pub open spec fn lends_icon(p: InstalledPluginView, key: Seq<char>) -> bool {
    p.format == PluginFormat::VST3 && p.plugin.icon_url.is_some() && normalized_name(p.plugin.name) == key
}

proof fn lemma_vst3_icon_in_source(s: Seq<InstalledPluginView>, key: Seq<char>)
    ensures
        vst3_icon_in(s, key).is_some() <==> exists|j: int| 0 <= j < s.len() && lends_icon(#[trigger] s[j], key),
        vst3_icon_in(s, key).is_some() ==> exists|j: int|
            0 <= j < s.len() && lends_icon(#[trigger] s[j], key) && s[j].plugin.icon_url == vst3_icon_in(s, key),
    decreases s.len(),
{
    if s.len() > 0 {
        let init = s.drop_last();
        lemma_vst3_icon_in_source(init, key);
        if exists|j: int| 0 <= j < init.len() && lends_icon(#[trigger] init[j], key) {
            let j = choose|j: int| 0 <= j < init.len() && lends_icon(#[trigger] init[j], key);
            assert(s[j] == init[j]);
        }
        if vst3_icon_in(init, key).is_some() && !lends_icon(s.last(), key) {
            let j = choose|j: int|
                0 <= j < init.len() && lends_icon(#[trigger] init[j], key) && init[j].plugin.icon_url
                    == vst3_icon_in(init, key);
            assert(s[j] == init[j]);
        }
        if exists|j: int| 0 <= j < s.len() && lends_icon(#[trigger] s[j], key) {
            let j = choose|j: int| 0 <= j < s.len() && lends_icon(#[trigger] s[j], key);
            if j < init.len() {
                assert(init[j] == s[j]);
            }
        }
        if lends_icon(s.last(), key) {
            assert(lends_icon(s[s.len() - 1], key));
        }
    }
}

/// A VST2 plugin without an icon ends up with one exactly when some VST3 plugin
/// of the same normalized name has one, and then it is such a plugin's icon: AU
/// and AAX plugins never lend theirs.
pub proof fn lemma_vst2_icon_comes_from_vst3(all: Seq<InstalledPluginView>, i: int)
    requires
        0 <= i < all.len(),
        all[i].format == PluginFormat::VST2,
        all[i].plugin.icon_url.is_none(),
    ensures
        shared_icons(all)[i].plugin.icon_url.is_some() <==> exists|j: int|
            0 <= j < all.len() && lends_icon(#[trigger] all[j], normalized_name(all[i].plugin.name)),
        shared_icons(all)[i].plugin.icon_url.is_some() ==> exists|j: int|
            0 <= j < all.len() && lends_icon(#[trigger] all[j], normalized_name(all[i].plugin.name))
                && all[j].plugin.icon_url == shared_icons(all)[i].plugin.icon_url,
{
    lemma_vst3_icon_in_source(all, normalized_name(all[i].plugin.name));
}

/// Every plugin but a VST2 plugin without an icon comes out of sharing unchanged.
pub proof fn lemma_other_plugins_unchanged(all: Seq<InstalledPluginView>, i: int)
    requires
        0 <= i < all.len(),
        !(all[i].format == PluginFormat::VST2 && all[i].plugin.icon_url.is_none()),
    ensures
        shared_icons(all)[i] == all[i],
{
}

} // verus!
