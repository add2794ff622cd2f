//! Where a report is fetched from and the name of the file it is kept in.
use vstd::prelude::*;
use vstd::string::StringExecFns;
use std::collections::hash_map::DefaultHasher;
use std::hash::{Hash, Hasher};
use vstd::std_specs::hash::DefaultHasherAdditionalSpecFns;
use crate::lang::{Lang, subdomain_text};
use crate::location::has_dotdot;
use crate::numeric::{hex_text, hex_digit, push_hex};

verus! {

/// The record of writes of a `DefaultHasher` after the text `s` is hashed
/// into it, from the record `state` before.
pub uninterp spec fn hashed_str(state: Seq<Seq<u8>>, s: Seq<char>) -> Seq<Seq<u8>>;

/// `<str as Hash>::hash` into a `DefaultHasher`. Claimed: the hasher's record
/// of writes afterwards is a function of its record before and of the text,
/// named `hashed_str`; what std writes for a `str` is not written out.
#[verifier::external_body]
fn hash_str(s: &str, state: &mut DefaultHasher)
    ensures
        final(state)@ == hashed_str(old(state)@, s@),
{
    s.hash(state);
}

/// The hash of `s` by a fresh `DefaultHasher`. `DefaultHasher::new` documents
/// that all the hashers it makes hash equal values alike; the algorithm is
/// not specified and may change between releases of Rust.
pub open spec fn location_hash(s: Seq<char>) -> u64 {
    DefaultHasher::spec_finish(hashed_str(Seq::empty(), s))
}

/// Hashes `location` with a fresh `DefaultHasher`.
fn hash_location(location: &str) -> (h: u64)
    ensures
        h == location_hash(location@),
{
    let mut hasher = DefaultHasher::new();
    hash_str(location, &mut hasher);
    hasher.finish()
}

/// The name kept for a text: `wttrbar-` and the hexadecimal hash of the text.
pub open spec fn cache_name_text(s: Seq<char>) -> Seq<char> {
    "wttrbar-"@ + hex_text(location_hash(s) as nat)
}

/// The name kept for a text whose hash is `h`.
pub fn cache_name_for_hash(h: u64) -> (name: String)
    ensures
        name@ == "wttrbar-"@ + hex_text(h as nat),
{
    let mut name = String::new();
    name.append("wttrbar-");
    push_hex(&mut name, h);
    name
}

/// A name for `location` made only of `wttrbar-` and hexadecimal digits, so
/// that no text the user gives can choose where a file goes.
pub fn location_to_cache_name(location: &str) -> (name: String)
    ensures
        name@ == cache_name_text(location@),
{
    cache_name_for_hash(hash_location(location))
}

/// The file that the report for `location` in the language served by
/// `lang_subdomain` is kept in: the name of `location-lang_subdomain`, with
/// the extension `json`.
pub open spec fn cache_file_text(location: Seq<char>, lang_subdomain: Seq<char>) -> Seq<char> {
    cache_name_text(location + "-"@ + lang_subdomain) + ".json"@
}

/// The name of the file that the report for `location`, in the language
/// served by `lang_subdomain`, is kept in.
pub fn cache_file_name(location: &str, lang_subdomain: &str) -> (name: String)
    ensures
        name@ == cache_file_text(location@, lang_subdomain@),
{
    let mut key = String::new();
    key.append(location);
    key.append("-");
    key.append(lang_subdomain);
    let mut name = location_to_cache_name(key.as_str());
    name.append(".json");
    name
}

/// The address the report for `location` is fetched from, in JSON, in the
/// language `lang`.
pub open spec fn weather_url_text(lang: Lang, location: Seq<char>) -> Seq<char> {
    "https://"@ + subdomain_text(lang) + "/"@ + location + "?format=j1"@
}

/// The address the report for `location` is fetched from.
pub fn weather_url(lang: Lang, location: &str) -> (url: String)
    ensures
        url@ == weather_url_text(lang, location@),
{
    let mut url = String::new();
    url.append("https://");
    url.append(lang.wttr_in_subdomain());
    url.append("/");
    url.append(location);
    url.append("?format=j1");
    url
}

/// Whether `t` is made only of lower-case ASCII letters, digits, `-` and `.`.
pub open spec fn plain_name_chars(t: Seq<char>) -> bool {
    forall|i: int|
        0 <= i < t.len() ==> {
            let c = #[trigger] t[i];
            ('a' <= c && c <= 'z') || ('0' <= c && c <= '9') || c == '-' || c == '.'
        }
}

/// Hexadecimal text is made of `0`-`9` and `a`-`f`.
proof fn lemma_hex_text_chars(n: nat)
    ensures
        forall|i: int|
            0 <= i < hex_text(n).len() ==> {
                let c = #[trigger] hex_text(n)[i];
                ('a' <= c && c <= 'f') || ('0' <= c && c <= '9')
            },
    decreases n,
{
    if n >= 16 {
        lemma_hex_text_chars(n / 16);
        let d = (n % 16) as int;
        assert(hex_text(n) == hex_text(n / 16).push(hex_digit(d)));
    } else {
        assert(hex_text(n) == seq![hex_digit(n as int)]);
    }
}

/// Law: whatever the location and language, the cache file name is made only
/// of lower-case letters, digits, `-` and `.`, holds no `..` and ends in
/// `.json`, so it names a file inside the cache directory.
pub proof fn law_cache_file_name_is_plain(location: Seq<char>, lang_subdomain: Seq<char>)
    ensures
        plain_name_chars(cache_file_text(location, lang_subdomain)),
        !has_dotdot(cache_file_text(location, lang_subdomain)),
        cache_file_text(location, lang_subdomain).len() > 5,
        cache_file_text(location, lang_subdomain).skip(
            cache_file_text(location, lang_subdomain).len() - 5,
        ) == ".json"@,
{
    reveal_strlit("wttrbar-");
    reveal_strlit(".json");
    let h = hex_text(location_hash(location + "-"@ + lang_subdomain) as nat);
    lemma_hex_text_chars(location_hash(location + "-"@ + lang_subdomain) as nat);
    let t = cache_file_text(location, lang_subdomain);
    let p = "wttrbar-"@;
    let e = ".json"@;
    assert(t == p + h + e);
    assert forall|i: int| 0 <= i < t.len() implies {
        let c = #[trigger] t[i];
        ('a' <= c && c <= 'z') || ('0' <= c && c <= '9') || c == '-' || c == '.'
    } by {
        if i < p.len() {
            assert(t[i] == p[i]);
        } else if i < p.len() + h.len() {
            assert(t[i] == h[i - p.len()]);
        } else {
            assert(t[i] == e[i - p.len() - h.len()]);
        }
    }
    assert forall|i: int| 0 <= i && i + 1 < t.len() implies !(#[trigger] t[i] == '.' && t[i + 1]
        == '.') by {
        if t[i] == '.' && t[i + 1] == '.' {
            if i < p.len() {
                assert(t[i] == p[i]);
            } else if i < p.len() + h.len() {
                assert(t[i] == h[i - p.len()]);
            } else {
                assert(t[i + 1] == e[i + 1 - p.len() - h.len()]);
            }
        }
    }
    assert(t.skip(t.len() - 5) =~= e);
}

} // verus!
