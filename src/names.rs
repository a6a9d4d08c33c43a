//! The normalized plugin name used to match one plugin across formats.
use vstd::prelude::*;
use crate::text::{ends_with, lower_of, lowercase, push_char, str_ends_with};

verus! {

/// The number of suffixes that normalization strips.
pub const NAME_SUFFIX_COUNT: usize = 18;

/// The version, architecture and role suffixes stripped from the end of a
/// lowercased name, in the order they are tried.
pub open spec fn name_suffixes() -> Seq<Seq<char>> {
    seq![
        " vst"@, " vst2"@, " vst3"@,
        "vst"@, "vst2"@, "vst3"@,
        " x64"@, " x86"@, "_x64"@, "_x86"@,
        " 64"@, " 32"@, "_64"@, "_32"@,
        " fx"@, " effect"@, "_fx"@, "_effect"@,
    ]
}

fn name_suffix(i: usize) -> (r: &'static str)
    requires
        i < NAME_SUFFIX_COUNT,
    ensures
        r@ == name_suffixes()[i as int],
{
    match i {
        0 => " vst",
        1 => " vst2",
        2 => " vst3",
        3 => "vst",
        4 => "vst2",
        5 => "vst3",
        6 => " x64",
        7 => " x86",
        8 => "_x64",
        9 => "_x86",
        10 => " 64",
        11 => " 32",
        12 => "_64",
        13 => "_32",
        14 => " fx",
        15 => " effect",
        16 => "_fx",
        _ => "_effect",
    }
}

/// `suffix` is non-empty and trails `s`.
pub open spec fn trails(s: Seq<char>, suffix: Seq<char>) -> bool {
    suffix.len() > 0 && ends_with(s, suffix)
}

/// The index of the first listed suffix, from the `i`-th on, that trails `s`; -1 if none does.
pub open spec fn first_trailing_from(s: Seq<char>, i: int) -> int
    decreases name_suffixes().len() - i,
{
    if i < 0 || i >= name_suffixes().len() {
        -1
    } else if trails(s, name_suffixes()[i]) {
        i
    } else {
        first_trailing_from(s, i + 1)
    }
}

/// `s` with listed suffixes stripped from its end as long as one trails it;
/// where several trail, the one listed first goes.
pub open spec fn strip_suffixes(s: Seq<char>) -> Seq<char>
    decreases s.len(),
{
    let k = first_trailing_from(s, 0);
    if 0 <= k < name_suffixes().len() && 0 < name_suffixes()[k].len() <= s.len() {
        strip_suffixes(s.subrange(0, s.len() - name_suffixes()[k].len()))
    } else {
        s
    }
}

/// Space, dash and underscore.
pub open spec fn is_separator(c: char) -> bool {
    c == ' ' || c == '-' || c == '_'
}

/// `s` without separators.
pub open spec fn remove_separators(s: Seq<char>) -> Seq<char>
    decreases s.len(),
{
    if s.len() == 0 {
        s
    } else {
        let rest = remove_separators(s.drop_last());
        if is_separator(s.last()) {
            rest
        } else {
            rest.push(s.last())
        }
    }
}

/// The normal form of an already lowercased name: suffixes stripped, then
/// separators removed.
pub open spec fn normalize_folded(lowered: Seq<char>) -> Seq<char> {
    remove_separators(strip_suffixes(lowered))
}

/// The normalized form of a plugin name.
pub open spec fn normalized_name(name: Seq<char>) -> Seq<char> {
    normalize_folded(lower_of(name))
}

proof fn lemma_first_trailing_range(s: Seq<char>, i: int)
    requires
        0 <= i,
    ensures
        first_trailing_from(s, i) == -1 || (i <= first_trailing_from(s, i) < name_suffixes().len()
            && trails(s, name_suffixes()[first_trailing_from(s, i)])),
    decreases name_suffixes().len() - i,
{
    if i < name_suffixes().len() && !trails(s, name_suffixes()[i]) {
        lemma_first_trailing_range(s, i + 1);
    }
}

/// The index of the first listed suffix that trails `s`, if any.
fn first_trailing_suffix(s: &str) -> (r: Option<usize>)
    ensures
        r.is_none() ==> first_trailing_from(s@, 0) == -1,
        r.is_some() ==> r.unwrap() < NAME_SUFFIX_COUNT && first_trailing_from(s@, 0) == r.unwrap(),
{
    let mut i: usize = 0;
    while i < NAME_SUFFIX_COUNT
        invariant
            i <= NAME_SUFFIX_COUNT,
            name_suffixes().len() == NAME_SUFFIX_COUNT,
            first_trailing_from(s@, 0) == first_trailing_from(s@, i as int),
        decreases NAME_SUFFIX_COUNT - i,
    {
        let suffix = name_suffix(i);
        if suffix.unicode_len() > 0 && str_ends_with(s, suffix) {
            return Some(i);
        }
        i = i + 1;
    }
    None
}

fn remove_separators_in(s: &str) -> (r: String)
    ensures
        r@ == remove_separators(s@),
{
    let n = s.unicode_len();
    let mut out = String::new();
    let mut i: usize = 0;
    while i < n
        invariant
            n == s@.len(),
            i <= n,
            out@ == remove_separators(s@.subrange(0, i as int)),
        decreases n - i,
    {
        let c = s.get_char(i);
        assert(s@.subrange(0, i + 1).drop_last() =~= s@.subrange(0, i as int));
        if !(c == ' ' || c == '-' || c == '_') {
            push_char(&mut out, c);
        }
        i = i + 1;
    }
    assert(s@.subrange(0, n as int) =~= s@);
    out
}

/// Normalizes a name that is already lowercase: strips listed suffixes from the
/// end as long as one trails, then removes spaces, dashes and underscores.
pub fn normalize_folded_name(lowered: &str) -> (r: String)
    ensures
        r@ == normalize_folded(lowered@),
{
    let mut cur = String::from_str(lowered);
    loop
        invariant
            name_suffixes().len() == NAME_SUFFIX_COUNT,
            strip_suffixes(cur@) == strip_suffixes(lowered@),
        ensures
            cur@ == strip_suffixes(lowered@),
        decreases cur@.len(),
    {
        proof {
            lemma_first_trailing_range(cur@, 0);
        }
        match first_trailing_suffix(cur.as_str()) {
            Some(k) => {
                let m = name_suffix(k).unicode_len();
                let n = cur.unicode_len();
                assert(0 < name_suffixes()[k as int].len() <= cur@.len());
                let shorter = String::from_str(cur.as_str().substring_char(0, n - m));
                cur = shorter;
            },
            None => {
                break;
            },
        }
    }
    remove_separators_in(cur.as_str())
}

/// The name used to match one plugin across formats: lowercased, known suffixes
/// stripped, separators removed.
pub fn normalize_plugin_name(name: &str) -> (r: String)
    ensures
        r@ == normalized_name(name@),
{
    let lowered = lowercase(name);
    normalize_folded_name(lowered.as_str())
}

proof fn lemma_separators_removed(s: Seq<char>)
    ensures
        forall|k: int| 0 <= k < remove_separators(s).len() ==> !is_separator(#[trigger] remove_separators(s)[k]),
    decreases s.len(),
{
    if s.len() > 0 {
        let rest = remove_separators(s.drop_last());
        lemma_separators_removed(s.drop_last());
        if !is_separator(s.last()) {
            assert forall|k: int| 0 <= k < rest.len() + 1 implies !is_separator(
                #[trigger] rest.push(s.last())[k],
            ) by {
                if k < rest.len() {
                    assert(rest.push(s.last())[k] == rest[k]);
                }
            }
        }
    }
}

proof fn lemma_remove_separators_keeps_clean(s: Seq<char>)
    requires
        forall|k: int| 0 <= k < s.len() ==> !is_separator(#[trigger] s[k]),
    ensures
        remove_separators(s) == s,
    decreases s.len(),
{
    if s.len() > 0 {
        lemma_remove_separators_keeps_clean(s.drop_last());
        assert(s.drop_last().push(s.last()) =~= s);
    }
}

proof fn lemma_suffix_heads()
    ensures
        name_suffixes().len() == NAME_SUFFIX_COUNT,
        forall|i: int| 0 <= i < NAME_SUFFIX_COUNT && !(3 <= i <= 5) ==> {
            &&& (#[trigger] name_suffixes()[i]).len() > 0
            &&& is_separator(name_suffixes()[i][0])
        },
        name_suffixes()[3] == "vst"@,
        name_suffixes()[4] == "vst2"@,
        name_suffixes()[5] == "vst3"@,
{
    reveal_strlit(" vst");
    reveal_strlit(" vst2");
    reveal_strlit(" vst3");
    reveal_strlit(" x64");
    reveal_strlit(" x86");
    reveal_strlit("_x64");
    reveal_strlit("_x86");
    reveal_strlit(" 64");
    reveal_strlit(" 32");
    reveal_strlit("_64");
    reveal_strlit("_32");
    reveal_strlit(" fx");
    reveal_strlit(" effect");
    reveal_strlit("_fx");
    reveal_strlit("_effect");
}

proof fn lemma_clean_name_untrailed(n: Seq<char>, i: int)
    requires
        0 <= i <= NAME_SUFFIX_COUNT,
        forall|k: int| 0 <= k < n.len() ==> !is_separator(#[trigger] n[k]),
        !ends_with(n, "vst"@),
        !ends_with(n, "vst2"@),
        !ends_with(n, "vst3"@),
    ensures
        first_trailing_from(n, i) == -1,
    decreases NAME_SUFFIX_COUNT - i,
{
    lemma_suffix_heads();
    if i < NAME_SUFFIX_COUNT {
        let suf = name_suffixes()[i];
        if !(3 <= i <= 5) && ends_with(n, suf) {
            let a = n.len() - suf.len();
            assert(n.subrange(a, n.len() as int)[0] == n[a]);
        }
        assert(!trails(n, suf));
        lemma_clean_name_untrailed(n, i + 1);
    }
}

/// Normalizing the normal form of a lowercased name gives it back, unless that
/// form ends in "vst", "vst2" or "vst3": such a tail can appear only once
/// separators are removed (as from "vs-t"), and a second pass strips it.
pub proof fn lemma_normalize_folded_idempotent(lowered: Seq<char>)
    requires
        !ends_with(normalize_folded(lowered), "vst"@),
        !ends_with(normalize_folded(lowered), "vst2"@),
        !ends_with(normalize_folded(lowered), "vst3"@),
    ensures
        normalize_folded(normalize_folded(lowered)) == normalize_folded(lowered),
{
    let n = normalize_folded(lowered);
    lemma_separators_removed(strip_suffixes(lowered));
    lemma_clean_name_untrailed(n, 0);
    assert(strip_suffixes(n) == n);
    lemma_remove_separators_keeps_clean(n);
}

/// The normalized name of a plugin, normalized again after its case is folded,
/// is itself, on the same condition: `normalize_plugin_name` applies
/// `normalize_folded` to the folded name.
pub proof fn lemma_normalize_idempotent(name: Seq<char>)
    requires
        !ends_with(normalized_name(name), "vst"@),
        !ends_with(normalized_name(name), "vst2"@),
        !ends_with(normalized_name(name), "vst3"@),
    ensures
        normalize_folded(normalized_name(name)) == normalized_name(name),
{
    lemma_normalize_folded_idempotent(lower_of(name));
}

} // verus!
