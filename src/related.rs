//! Where presets, content libraries and preference files of a plugin may be.
use vstd::prelude::*;
use crate::plugin::{RelatedPaths, RelatedPathsView};
use crate::profile::{EnvPaths, Platform};
use crate::text::{concat3, concat4, lower_of, lowercase, remove_char, remove_char_in};

verus! {

/// The candidate locations of one plugin, before any of them is probed.
pub open spec fn related_candidates_of(
    platform: Platform,
    env: EnvPaths,
    name: Seq<char>,
) -> RelatedPathsView {
    match platform {
        Platform::MacOs => match env.home.deep_view() {
            Some(h) => RelatedPathsView {
                preset_locations: seq![
                    h + "/Music/"@ + name,
                    h + "/Library/Audio/Presets/"@ + name,
                    h + "/Documents/"@ + name,
                    h + "/Documents/"@ + name + " Library"@,
                ],
                library_locations: seq![
                    "/Library/Application Support/"@ + name,
                    h + "/Library/Application Support/"@ + name,
                    "/Library/Audio/Sounds/"@ + name,
                    h + "/Library/Audio/Sounds/"@ + name,
                ],
                support_locations: seq![],
                preference_files: seq![
                    h + "/Library/Preferences/com."@ + remove_char(lower_of(name), ' ') + ".plist"@,
                    h + "/Library/Preferences/"@ + remove_char(name, ' ') + ".plist"@,
                ],
            },
            None => RelatedPathsView {
                preset_locations: seq![],
                library_locations: seq![
                    "/Library/Application Support/"@ + name,
                    "/Library/Audio/Sounds/"@ + name,
                ],
                support_locations: seq![],
                preference_files: seq![],
            },
        },
        Platform::Windows => RelatedPathsView {
            preset_locations: match env.app_data.deep_view() {
                Some(a) => seq![a + "\\"@ + name, a + "\\"@ + name + "\\Presets"@],
                None => seq![],
            },
            library_locations: match env.program_data.deep_view() {
                Some(p) => seq![p + "\\"@ + name],
                None => seq![],
            },
            support_locations: seq![],
            preference_files: seq![],
        },
        Platform::Linux => RelatedPathsView {
            preset_locations: seq![],
            library_locations: seq![],
            support_locations: seq![],
            preference_files: seq![],
        },
    }
}

/// The places where `name`'s presets, libraries and preferences are looked for on
/// `platform`; those derived from an unset variable are left out.
pub fn related_path_candidates(platform: Platform, env: &EnvPaths, name: &str) -> (r: RelatedPaths)
    ensures
        r@ == related_candidates_of(platform, *env, name@),
{
    let mut c = RelatedPaths::default();
    match platform {
        Platform::MacOs => {
            match &env.home {
                Some(h) => {
                    let h = h.as_str();
                    c.preset_locations.push(concat3(h, "/Music/", name));
                    c.preset_locations.push(concat3(h, "/Library/Audio/Presets/", name));
                    c.preset_locations.push(concat3(h, "/Documents/", name));
                    c.preset_locations.push(concat4(h, "/Documents/", name, " Library"));
                    c.library_locations.push(crate::text::concat("/Library/Application Support/", name));
                    c.library_locations.push(concat3(h, "/Library/Application Support/", name));
                    c.library_locations.push(crate::text::concat("/Library/Audio/Sounds/", name));
                    c.library_locations.push(concat3(h, "/Library/Audio/Sounds/", name));
                    let lower = lowercase(name);
                    let squeezed_lower = remove_char_in(lower.as_str(), ' ');
                    let squeezed = remove_char_in(name, ' ');
                    c.preference_files.push(
                        concat4(h, "/Library/Preferences/com.", squeezed_lower.as_str(), ".plist"),
                    );
                    c.preference_files.push(
                        concat4(h, "/Library/Preferences/", squeezed.as_str(), ".plist"),
                    );
                },
                None => {
                    c.library_locations.push(crate::text::concat("/Library/Application Support/", name));
                    c.library_locations.push(crate::text::concat("/Library/Audio/Sounds/", name));
                },
            }
        },
        Platform::Windows => {
            if let Some(a) = &env.app_data {
                c.preset_locations.push(concat3(a.as_str(), "\\", name));
                c.preset_locations.push(concat4(a.as_str(), "\\", name, "\\Presets"));
            }
            if let Some(p) = &env.program_data {
                c.library_locations.push(concat3(p.as_str(), "\\", name));
            }
        },
        Platform::Linux => {},
    }
    assert(c@.preset_locations =~= related_candidates_of(platform, *env, name@).preset_locations);
    assert(c@.library_locations =~= related_candidates_of(platform, *env, name@).library_locations);
    assert(c@.support_locations =~= related_candidates_of(platform, *env, name@).support_locations);
    assert(c@.preference_files =~= related_candidates_of(platform, *env, name@).preference_files);
    c
}

/// A candidate path and whether it exists.
#[derive(Clone, Debug)]
pub struct PathCheck {
    pub path: String,
    pub exists: bool,
}

/// The probed candidates of one plugin, category by category.
#[derive(Clone, Debug)]
pub struct RelatedProbes {
    pub preset_locations: Vec<PathCheck>,
    pub library_locations: Vec<PathCheck>,
    pub support_locations: Vec<PathCheck>,
    pub preference_files: Vec<PathCheck>,
}

/// The paths of the checks that found something, in order.
pub open spec fn existing_paths(s: Seq<PathCheck>) -> Seq<Seq<char>>
    decreases s.len(),
{
    if s.len() == 0 {
        seq![]
    } else {
        let rest = existing_paths(s.drop_last());
        if s.last().exists {
            rest.push(s.last().path@)
        } else {
            rest
        }
    }
}

/// What a plugin's related paths are once its candidates have been probed.
pub open spec fn related_paths_of(p: RelatedProbes) -> RelatedPathsView {
    RelatedPathsView {
        preset_locations: existing_paths(p.preset_locations@),
        library_locations: existing_paths(p.library_locations@),
        support_locations: existing_paths(p.support_locations@),
        preference_files: existing_paths(p.preference_files@),
    }
}

/// The paths of `checks` that exist, in their order.
pub fn keep_existing(checks: &Vec<PathCheck>) -> (r: Vec<String>)
    ensures
        r.deep_view() == existing_paths(checks@),
{
    let mut out: Vec<String> = Vec::new();
    let mut i: usize = 0;
    while i < checks.len()
        invariant
            i <= checks@.len(),
            out.deep_view() == existing_paths(checks@.subrange(0, i as int)),
        decreases checks@.len() - i,
    {
        assert(checks@.subrange(0, i + 1).drop_last() =~= checks@.subrange(0, i as int));
        if checks[i].exists {
            out.push(checks[i].path.clone());
            assert(out.deep_view() =~= existing_paths(checks@.subrange(0, i + 1)));
        }
        i = i + 1;
    }
    assert(checks@.subrange(0, checks@.len() as int) =~= checks@);
    out
}

/// Keeps, in each category, the candidates that exist; absence is no error.
pub fn discover_related_paths(probes: &RelatedProbes) -> (r: RelatedPaths)
    ensures
        r@ == related_paths_of(*probes),
{
    RelatedPaths {
        preset_locations: keep_existing(&probes.preset_locations),
        library_locations: keep_existing(&probes.library_locations),
        support_locations: keep_existing(&probes.support_locations),
        preference_files: keep_existing(&probes.preference_files),
    }
}

/// No existing check, no path.
pub proof fn lemma_no_existing_paths(s: Seq<PathCheck>)
    requires
        forall|i: int| 0 <= i < s.len() ==> !(#[trigger] s[i]).exists,
    ensures
        existing_paths(s) == Seq::<Seq<char>>::empty(),
    decreases s.len(),
{
    if s.len() > 0 {
        lemma_no_existing_paths(s.drop_last());
    }
}

/// A plugin none of whose candidates exists gets every category empty, not an error.
pub proof fn lemma_nothing_found_is_empty(p: RelatedProbes)
    requires
        forall|i: int| 0 <= i < p.preset_locations@.len() ==> !(#[trigger] p.preset_locations@[i]).exists,
        forall|i: int| 0 <= i < p.library_locations@.len() ==> !(#[trigger] p.library_locations@[i]).exists,
        forall|i: int| 0 <= i < p.support_locations@.len() ==> !(#[trigger] p.support_locations@[i]).exists,
        forall|i: int| 0 <= i < p.preference_files@.len() ==> !(#[trigger] p.preference_files@[i]).exists,
    ensures
        related_paths_of(p).preset_locations.len() == 0,
        related_paths_of(p).library_locations.len() == 0,
        related_paths_of(p).support_locations.len() == 0,
        related_paths_of(p).preference_files.len() == 0,
{
    lemma_no_existing_paths(p.preset_locations@);
    lemma_no_existing_paths(p.library_locations@);
    lemma_no_existing_paths(p.support_locations@);
    lemma_no_existing_paths(p.preference_files@);
}

} // verus!
