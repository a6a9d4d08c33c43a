//! Where icons supplied from outside are cached, and how an icon URL resolves to a file.
use vstd::prelude::*;
use crate::profile::{Platform, join, join_path, separator_of};
use crate::scanner::last_dot;
use crate::text::{alphanumeric, is_alphanumeric, push_char, starts_with, str_starts_with};

verus! {

/// What `md5::compute` returns for the UTF-8 bytes of a string.
pub uninterp spec fn md5_digest_of(text: Seq<char>) -> Seq<u8>;

/// Relies on `md5::compute`: the MD5 digest of the string's UTF-8 bytes, which is
/// sixteen bytes long.
#[verifier::external_body]
fn md5_digest(text: &str) -> (r: Vec<u8>)
    ensures
        r@ == md5_digest_of(text@),
        r@.len() == 16,
{
    md5::compute(text.as_bytes()).0.to_vec()
}

/// The lowercase hexadecimal digit of a value below sixteen.
pub open spec fn hex_digit(n: u8) -> char {
    match n {
        0 => '0',
        1 => '1',
        2 => '2',
        3 => '3',
        4 => '4',
        5 => '5',
        6 => '6',
        7 => '7',
        8 => '8',
        9 => '9',
        10 => 'a',
        11 => 'b',
        12 => 'c',
        13 => 'd',
        14 => 'e',
        _ => 'f',
    }
}

/// Bytes as lowercase hexadecimal, two digits each, high digit first.
pub open spec fn lower_hex(b: Seq<u8>) -> Seq<char>
    decreases b.len(),
{
    if b.len() == 0 {
        seq![]
    } else {
        lower_hex(b.drop_last()) + seq![hex_digit(b.last() / 16), hex_digit(b.last() % 16)]
    }
}

fn hex_digit_of(n: u8) -> (r: char)
    ensures
        r == hex_digit(n),
{
    match n {
        0 => '0',
        1 => '1',
        2 => '2',
        3 => '3',
        4 => '4',
        5 => '5',
        6 => '6',
        7 => '7',
        8 => '8',
        9 => '9',
        10 => 'a',
        11 => 'b',
        12 => 'c',
        13 => 'd',
        14 => 'e',
        _ => 'f',
    }
}

/// Bytes as lowercase hexadecimal.
pub fn to_lower_hex(b: &Vec<u8>) -> (r: String)
    ensures
        r@ == lower_hex(b@),
{
    let mut out = String::new();
    let mut i: usize = 0;
    while i < b.len()
        invariant
            i <= b@.len(),
            out@ == lower_hex(b@.subrange(0, i as int)),
        decreases b@.len() - i,
    {
        let x = b[i];
        assert(b@.subrange(0, i + 1).drop_last() =~= b@.subrange(0, i as int));
        push_char(&mut out, hex_digit_of(x / 16));
        push_char(&mut out, hex_digit_of(x % 16));
        assert(out@ =~= lower_hex(b@.subrange(0, i + 1)));
        i = i + 1;
    }
    assert(b@.subrange(0, b@.len() as int) =~= b@);
    out
}

/// What follows the last `.` of a URL.
pub open spec fn url_tail(url: Seq<char>) -> Seq<char> {
    url.subrange(last_dot(url) + 1, url.len() as int)
}

/// A URL has a trailing extension that is kept for its cache file when it holds
/// a `.` and what follows the last one is one to four alphanumeric characters.
pub open spec fn keeps_extension(url: Seq<char>) -> bool {
    let tail = url_tail(url);
    &&& last_dot(url) >= 0
    &&& 1 <= tail.len() <= 4
    &&& forall|k: int| 0 <= k < tail.len() ==> alphanumeric(#[trigger] tail[k])
}

/// The cache file name of a URL: the hex MD5 digest of the URL, plus a dot and
/// the URL's trailing extension where it has one that is kept.
pub open spec fn cache_filename_of(url: Seq<char>) -> Seq<char> {
    let hash = lower_hex(md5_digest_of(url));
    if keeps_extension(url) {
        hash + "."@ + url_tail(url)
    } else {
        hash
    }
}

/// The tail of `url` after its last `.`; `None` when it has no `.`.
fn tail_after_last_dot(url: &str) -> (r: Option<String>)
    ensures
        r.is_some() == (last_dot(url@) >= 0),
        r.is_some() ==> r.unwrap()@ == url_tail(url@),
{
    let n = url.unicode_len();
    let mut i: usize = n;
    proof {
        crate::scanner::lemma_last_dot_range(url@, n as int);
    }
    while i > 0
        invariant
            n == url@.len(),
            i <= n,
            last_dot(url@) == crate::scanner::last_dot_before(url@, i as int),
        decreases i,
    {
        if url.get_char(i - 1) == '.' {
            return Some(String::from_str(url.substring_char(i, n)));
        }
        i = i - 1;
    }
    None
}

fn all_alphanumeric(s: &str) -> (r: bool)
    ensures
        r == (forall|k: int| 0 <= k < s@.len() ==> alphanumeric(#[trigger] s@[k])),
{
    let n = s.unicode_len();
    let mut i: usize = 0;
    while i < n
        invariant
            n == s@.len(),
            i <= n,
            forall|k: int| 0 <= k < i ==> alphanumeric(#[trigger] s@[k]),
        decreases n - i,
    {
        if !is_alphanumeric(s.get_char(i)) {
            return false;
        }
        i = i + 1;
    }
    true
}

/// The name of the file that caches the icon at `url`; identical URLs always get
/// the same name.
pub fn url_to_cache_filename(url: &str) -> (r: String)
    ensures
        r@ == cache_filename_of(url@),
{
    let digest = md5_digest(url);
    let hash = to_lower_hex(&digest);
    match tail_after_last_dot(url) {
        Some(tail) => {
            let len = tail.unicode_len();
            if 1 <= len && len <= 4 && all_alphanumeric(tail.as_str()) {
                crate::text::concat3(hash.as_str(), ".", tail.as_str())
            } else {
                hash
            }
        },
        None => hash,
    }
}

/// The path of the cache file of `url` under `cache_dir`.
pub open spec fn cache_path_of(cache_dir: Seq<char>, url: Seq<char>, platform: Platform) -> Seq<char> {
    join_path(cache_dir, cache_filename_of(url), separator_of(platform))
}

/// Where the icon of `url` is cached under `cache_dir`; bytes supplied for `url`
/// are written there.
pub fn cache_file_path(cache_dir: &str, url: &str, platform: Platform) -> (r: String)
    ensures
        r@ == cache_path_of(cache_dir@, url@, platform),
{
    let name = url_to_cache_filename(url);
    join(cache_dir, name.as_str(), platform)
}

/// Where the file behind an icon URL is looked for.
#[derive(Clone, Copy, Debug, PartialEq, Eq, Structural)]
pub enum IconOrigin {
    /// The path a `file://` URL names.
    Local,
    /// The URL's file in the icon cache.
    Cache,
}

/// The file that an icon URL resolves to if it exists.
#[derive(Clone, Debug)]
pub struct IconSource {
    pub origin: IconOrigin,
    pub path: String,
}

/// `url` with every leading `file://` removed.
pub open spec fn strip_file_scheme(url: Seq<char>) -> Seq<char>
    decreases url.len(),
{
    if starts_with(url, "file://"@) && "file://"@.len() > 0 {
        strip_file_scheme(url.subrange("file://"@.len() as int, url.len() as int))
    } else {
        url
    }
}

/// Where an icon URL is looked for: a `file://` URL at its own path, without
/// regard to the cache; any other URL at its cache file, when the cache
/// directory is known.
pub open spec fn icon_source_of(
    url: Seq<char>,
    cache_dir: Option<Seq<char>>,
    platform: Platform,
) -> Option<(IconOrigin, Seq<char>)> {
    if starts_with(url, "file://"@) {
        Some((IconOrigin::Local, strip_file_scheme(url)))
    } else {
        match cache_dir {
            Some(d) => Some((IconOrigin::Cache, cache_path_of(d, url, platform))),
            None => None,
        }
    }
}

/// The abstract value of an optional icon source.
pub open spec fn source_view(s: Option<IconSource>) -> Option<(IconOrigin, Seq<char>)> {
    match s {
        Some(x) => Some((x.origin, x.path@)),
        None => None,
    }
}

fn strip_file_scheme_in(url: &str) -> (r: String)
    ensures
        r@ == strip_file_scheme(url@),
{
    let mut cur = String::from_str(url);
    proof {
        reveal_strlit("file://");
    }
    while str_starts_with(cur.as_str(), "file://")
        invariant
            strip_file_scheme(cur@) == strip_file_scheme(url@),
            "file://"@.len() == 7,
        decreases cur@.len(),
    {
        let n = cur.unicode_len();
        let rest = String::from_str(cur.as_str().substring_char(7, n));
        cur = rest;
    }
    cur
}

/// The file to check for the icon at `url`; `None` when `url` is not a
/// `file://` URL and the cache directory is unknown.
pub fn icon_path_candidate(url: &str, cache_dir: &Option<String>, platform: Platform) -> (r: Option<IconSource>)
    ensures
        source_view(r) == icon_source_of(url@, cache_dir.deep_view(), platform),
{
    if str_starts_with(url, "file://") {
        return Some(IconSource { origin: IconOrigin::Local, path: strip_file_scheme_in(url) });
    }
    match cache_dir {
        Some(d) => Some(IconSource { origin: IconOrigin::Cache, path: cache_file_path(d.as_str(), url, platform) }),
        None => None,
    }
}

/// The path of an icon if its file exists: `exists` tells whether the file of
/// `candidate` does.
pub fn get_cached_icon_path(candidate: &Option<IconSource>, exists: bool) -> (r: Option<String>)
    ensures
        r.deep_view() == (match source_view(*candidate) {
            Some((_, p)) => if exists { Some(p) } else { None },
            None => None,
        }),
{
    match candidate {
        Some(c) => if exists {
            Some(c.path.clone())
        } else {
            None
        },
        None => None,
    }
}

/// Why an icon could not be had.
#[derive(Clone, Debug)]
pub enum IconError {
    /// The icon at this URL is not in the cache; the caller has to download it.
    NotCached(String),
}

/// The cached file of the icon at `url`. `cached` tells whether the file at
/// [`cache_file_path`] exists; nothing is downloaded here.
pub fn fetch_icon(url: &str, cache_dir: &str, platform: Platform, cached: bool) -> (r: Result<String, IconError>)
    ensures
        cached ==> r is Ok && r->Ok_0@ == cache_path_of(cache_dir@, url@, platform),
        !cached ==> (match r {
            Err(IconError::NotCached(u)) => u@ == url@,
            Ok(_) => false,
        }),
{
    if cached {
        Ok(cache_file_path(cache_dir, url, platform))
    } else {
        Err(IconError::NotCached(String::from_str(url)))
    }
}

/// A `file://` URL resolves to its own path whatever the cache directory is, or
/// whether there is one: the cache is not consulted for it.
pub proof fn lemma_file_url_bypasses_cache(
    url: Seq<char>,
    cache_dir: Option<Seq<char>>,
    other_dir: Option<Seq<char>>,
    platform: Platform,
)
    requires
        starts_with(url, "file://"@),
    ensures
        icon_source_of(url, cache_dir, platform) == Some((IconOrigin::Local, strip_file_scheme(url))),
        icon_source_of(url, cache_dir, platform) == icon_source_of(url, other_dir, platform),
{
}

/// Bytes cached for a URL are found again: a lookup of any URL other than a
/// `file://` one checks exactly the file that caching it writes.
pub proof fn lemma_cached_icon_found_again(url: Seq<char>, cache_dir: Seq<char>, platform: Platform)
    requires
        !starts_with(url, "file://"@),
    ensures
        icon_source_of(url, Some(cache_dir), platform) == Some(
            (IconOrigin::Cache, cache_path_of(cache_dir, url, platform)),
        ),
{
}

/// A `file://` URL whose path does not itself begin with `file://` resolves to
/// that path, whatever the cache directory: if the file exists,
/// `get_cached_icon_path` returns exactly it.
pub proof fn lemma_file_url_names_its_path(
    path: Seq<char>,
    cache_dir: Option<Seq<char>>,
    platform: Platform,
)
    requires
        !starts_with(path, "file://"@),
    ensures
        icon_source_of("file://"@ + path, cache_dir, platform) == Some((IconOrigin::Local, path)),
{
    reveal_strlit("file://");
    let url = "file://"@ + path;
    assert(url.subrange(0, 7) =~= "file://"@);
    assert(url.subrange(7, url.len() as int) =~= path);
    assert(strip_file_scheme(path) == path);
}

} // verus!
