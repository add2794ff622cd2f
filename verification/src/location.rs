//! Validation of the location asked for: a place name, or a pair of
//! coordinates, that cannot reach outside the cache directory.
use vstd::prelude::*;
use vstd::utf8::{encode_utf8, encode_scalar, char_is_scalar};
use crate::model::AppError;
use crate::floats::{float_text, trimmed, is_unicode_whitespace, is_float_text, trim_range,
    is_whitespace_char, lemma_trim_cut, lemma_float_text_is_inert, inert_char};
use crate::text::{chars_of, find_char, contains_char};

verus! {

/// What `char::is_alphanumeric` answers for `c` (the Unicode `Alphabetic`
/// property or a numeric general category).
pub uninterp spec fn unicode_alphanumeric(c: char) -> bool;

/// `char::is_alphanumeric`. Claimed: the answer is a function of the
/// character alone, named `unicode_alphanumeric`; the Unicode tables behind it
/// are not written out.
#[verifier::external_body]
fn is_alphanumeric_char(c: char) -> (r: bool)
    ensures
        r == unicode_alphanumeric(c),
{
    c.is_alphanumeric()
}

/// The most bytes that a location may take.
pub const MAX_LOCATION_BYTES: usize = 256;

/// Whether `s` holds two `.` in a row.
pub open spec fn has_dotdot(s: Seq<char>) -> bool {
    exists|i: int| 0 <= i && i + 1 < s.len() && #[trigger] s[i] == '.' && s[i + 1] == '.'
}

/// The characters allowed in a place name.
pub open spec fn allowed_location_char(c: char) -> bool {
    ||| unicode_alphanumeric(c)
    ||| is_unicode_whitespace(c)
    ||| c == '-'
    ||| c == '_'
    ||| c == ','
    ||| c == '\''
    ||| c == '.'
}

/// Whether `s` is two coordinates: exactly one comma, and on each side of it a
/// number that `f64::from_str` accepts once surrounding whitespace is removed.
pub open spec fn coordinates_text(s: Seq<char>) -> bool {
    exists|k: int|
        #![trigger s[k]]
        0 <= k < s.len() && s[k] == ',' && !s.take(k).contains(',') && !s.skip(k + 1).contains(',')
            && float_text(trimmed(s.take(k))) && float_text(trimmed(s.skip(k + 1)))
}

/// The message for a location longer than allowed.
pub open spec fn too_long_message() -> Seq<char> {
    "Localização muito longa (máx. 256 caracteres)"@
}

/// The message for a malformed pair of coordinates.
pub open spec fn bad_coordinates_message() -> Seq<char> {
    "Coordenadas inválidas. Use formato: lat,lon"@
}

/// The message for a location with characters that are not allowed.
pub open spec fn bad_characters_message() -> Seq<char> {
    "Localização contém caracteres inválidos"@
}

/// What is wrong with the location `s`, if anything. The empty location is
/// fine (the service then locates the caller); a location longer than 256
/// bytes is refused; one with a comma must be a pair of coordinates; any other
/// must hold no `..`, `/` or `\` and only letters, digits, whitespace and
/// `- _ , ' .`.
pub open spec fn location_problem(s: Seq<char>) -> Option<Seq<char>> {
    if s.len() == 0 {
        None
    } else if encode_utf8(s).len() > MAX_LOCATION_BYTES {
        Some(too_long_message())
    } else if s.contains(',') {
        if coordinates_text(s) {
            None
        } else {
            Some(bad_coordinates_message())
        }
    } else if has_dotdot(s) || s.contains('/') || s.contains('\\') {
        Some(bad_characters_message())
    } else if exists|i: int| 0 <= i < s.len() && !allowed_location_char(#[trigger] s[i]) {
        Some(bad_characters_message())
    } else {
        None
    }
}

/// The UTF-8 encoding of a sequence grows by that of the character added.
pub proof fn lemma_encode_utf8_push(a: Seq<char>, c: char)
    ensures
        encode_utf8(a.push(c)) == encode_utf8(a) + encode_scalar(c as u32),
    decreases a.len(),
{
    if a.len() == 0 {
        assert(a.push(c).drop_first() =~= Seq::<char>::empty());
        assert(encode_utf8(Seq::<char>::empty()) =~= Seq::<u8>::empty());
        assert(encode_utf8(a) =~= Seq::<u8>::empty());
        assert(a.push(c)[0] == c);
        assert(encode_utf8(a.push(c)) =~= encode_utf8(a) + encode_scalar(c as u32));
    } else {
        lemma_encode_utf8_push(a.drop_first(), c);
        assert(a.push(c).drop_first() =~= a.drop_first().push(c));
        assert(a.push(c)[0] == a[0]);
        assert(encode_utf8(a.push(c)) =~= encode_utf8(a) + encode_scalar(c as u32));
    }
}

/// The number of bytes of the UTF-8 encoding of `c`.
fn utf8_width(c: char) -> (w: usize)
    ensures
        w == encode_scalar(c as u32).len(),
        1 <= w <= 4,
{
    proof {
        char_is_scalar(c);
    }
    let u = c as u32;
    if u <= 0x7f {
        1
    } else if u <= 0x7ff {
        2
    } else if u <= 0xffff {
        3
    } else {
        4
    }
}

/// Whether the UTF-8 encoding of `s` takes more than `limit` bytes.
fn utf8_longer_than(s: &str, limit: usize) -> (r: bool)
    requires
        limit <= 0x1000_0000,
    ensures
        r == (encode_utf8(s@).len() > limit),
{
    let mut total: usize = 0;
    let ghost mut seen: Seq<char> = Seq::empty();
    for c in it: s.chars()
        invariant
            it.seq() == s@,
            seen == it.seq().take(it.index()),
            total == encode_utf8(seen).len(),
            total <= limit,
            limit <= 0x1000_0000,
    {
        let w = utf8_width(c);
        proof {
            lemma_encode_utf8_push(seen, c);
            seen = seen.push(c);
        }
        total = total + w;
        if total > limit {
            proof {
                lemma_encode_utf8_prefix(s@, seen.len() as int);
                assert(s@.take(seen.len() as int) =~= seen);
            }
            return true;
        }
    }
    assert(seen =~= s@);
    false
}

/// The encoding of a prefix is no longer than that of the whole.
proof fn lemma_encode_utf8_prefix(s: Seq<char>, k: int)
    requires
        0 <= k <= s.len(),
    ensures
        encode_utf8(s.take(k)).len() <= encode_utf8(s).len(),
    decreases s.len() - k,
{
    if k < s.len() {
        lemma_encode_utf8_prefix(s, k + 1);
        lemma_encode_utf8_push(s.take(k), s[k]);
        assert(s.take(k).push(s[k]) =~= s.take(k + 1));
    } else {
        assert(s.take(k) =~= s);
    }
}

/// Whether `v` holds two `.` in a row.
fn holds_dotdot(v: &Vec<char>) -> (r: bool)
    ensures
        r == has_dotdot(v@),
{
    let mut i: usize = 0;
    while i < v.len() && i + 1 < v.len()
        invariant
            i <= v.len(),
            forall|j: int| 0 <= j < i && j + 1 < v@.len() ==> !(#[trigger] v@[j] == '.' && v@[j + 1] == '.'),
        decreases v.len() - i,
    {
        if v[i] == '.' && v[i + 1] == '.' {
            return true;
        }
        i = i + 1;
    }
    false
}

/// Whether `c` may stand in a place name.
fn is_allowed_location_char(c: char) -> (r: bool)
    ensures
        r == allowed_location_char(c),
{
    is_alphanumeric_char(c) || is_whitespace_char(c) || c == '-' || c == '_' || c == ',' || c
        == '\'' || c == '.'
}

/// Whether `v`, which holds a comma, is a pair of coordinates.
fn is_coordinates(v: &Vec<char>) -> (r: bool)
    requires
        v@.contains(','),
    ensures
        r == coordinates_text(v@),
{
    let k = find_char(v, ',', 0);
    let ghost s = v@;
    if k >= v.len() {
        let ghost j = choose|j: int| 0 <= j < s.len() && s[j] == ',';
        assert(false);
        return false;
    }
    let after = find_char(v, ',', k + 1);
    let p0 = trim_range(v, 0, k);
    let p1 = trim_range(v, k + 1, v.len());
    assert(s.subrange(0, k as int) =~= s.take(k as int));
    assert(s.subrange(k + 1, s.len() as int) =~= s.skip(k + 1));
    let ok = after >= v.len() && is_float_text(&p0) && is_float_text(&p1);
    proof {
        assert(!s.take(k as int).contains(',')) by {
            if s.take(k as int).contains(',') {
                let j = choose|j: int| 0 <= j < k && s.take(k as int)[j] == ',';
                assert(s[j] == ',');
            }
        }
        if after < v.len() {
            assert(s.skip(k + 1)[after - k - 1] == ',');
        } else {
            assert(!s.skip(k + 1).contains(',')) by {
                if s.skip(k + 1).contains(',') {
                    let j = choose|j: int| 0 <= j < s.len() - k - 1 && #[trigger] s.skip(k + 1)[j] == ',';
                    assert(s[k + 1 + j] == ',');
                }
            }
        }
        if coordinates_text(s) {
            let k2 = choose|k2: int|
                #![trigger s[k2]]
                0 <= k2 < s.len() && s[k2] == ',' && !s.take(k2).contains(',') && !s.skip(k2 + 1).contains(',')
                    && float_text(trimmed(s.take(k2))) && float_text(trimmed(s.skip(k2 + 1)));
            if k < k2 {
                assert(s.take(k2)[k as int] == ',');
            }
            assert(k2 == k);
        }
        if ok {
            assert(s[k as int] == ',');
        }
    }
    ok
}

/// A part of a pair of coordinates, with the whitespace around it, holds no
/// separator and no two points in a row.
proof fn lemma_coordinate_part(p: Seq<char>)
    requires
        float_text(trimmed(p)),
    ensures
        forall|i: int| 0 <= i < p.len() ==> #[trigger] p[i] != '/' && p[i] != '\\' && p[i] != ',',
        forall|i: int| 0 <= i && i + 1 < p.len() ==> !(#[trigger] p[i] == '.' && p[i + 1] == '.'),
{
    let (a, b) = lemma_trim_cut(p);
    let t = trimmed(p);
    lemma_float_text_is_inert(t);
    assert forall|i: int| 0 <= i < p.len() implies #[trigger] p[i] != '/' && p[i] != '\\' && p[i]
        != ',' by {
        if a <= i < b {
            assert(p[i] == t[i - a]);
            assert(inert_char(t[i - a]));
        }
    }
    assert forall|i: int| 0 <= i && i + 1 < p.len() implies !(#[trigger] p[i] == '.' && p[i + 1]
        == '.') by {
        if p[i] == '.' && p[i + 1] == '.' {
            assert(!is_unicode_whitespace(p[i]));
            assert(!is_unicode_whitespace(p[i + 1]));
            assert(a <= i < b);
            assert(a <= i + 1 < b);
            assert(p[i] == t[i - a]);
            assert(p[i + 1] == t[i - a + 1]);
        }
    }
}

/// Law: a location that passes validation takes at most 256 bytes and holds
/// no `..`, no `/` and no `\`, so it cannot name a path outside the place
/// it is put in.
pub proof fn law_accepted_location_cannot_traverse(s: Seq<char>)
    requires
        location_problem(s) is None,
    ensures
        encode_utf8(s).len() <= MAX_LOCATION_BYTES,
        !has_dotdot(s),
        !s.contains('/'),
        !s.contains('\\'),
{
    if s.len() == 0 {
        assert(encode_utf8(s) =~= Seq::<u8>::empty());
        return;
    }
    if s.contains(',') {
        let k = choose|k: int|
            #![trigger s[k]]
            0 <= k < s.len() && s[k] == ',' && !s.take(k).contains(',') && !s.skip(k + 1).contains(',')
                && float_text(trimmed(s.take(k))) && float_text(trimmed(s.skip(k + 1)));
        let p0 = s.take(k);
        let p1 = s.skip(k + 1);
        lemma_coordinate_part(p0);
        lemma_coordinate_part(p1);
        assert forall|i: int| 0 <= i < s.len() implies #[trigger] s[i] != '/' && s[i] != '\\' by {
            if i < k {
                assert(s[i] == p0[i]);
            } else if i > k {
                assert(s[i] == p1[i - k - 1]);
            }
        }
        assert forall|i: int| 0 <= i && i + 1 < s.len() implies !(#[trigger] s[i] == '.' && s[i + 1]
            == '.') by {
            if i + 1 < k {
                assert(s[i] == p0[i]);
                assert(s[i + 1] == p0[i + 1]);
            } else if i > k {
                assert(s[i] == p1[i - k - 1]);
                assert(s[i + 1] == p1[i - k]);
            }
        }
    }
}

/// Law: a place name (not empty, at most 256 bytes, without a comma, `..`,
/// `/` or `\`) is accepted exactly when each of its characters is
/// alphanumeric, whitespace, or one of `-`, `_`, `,`, `'` and `.`; otherwise
/// it is refused for its characters. So `St. Louis` and `Saint-Denis
/// d'Oléron` pass, and a single `;` or `<` anywhere refuses the name.
pub proof fn law_place_name_characters(s: Seq<char>)
    requires
        s.len() > 0,
        encode_utf8(s).len() <= MAX_LOCATION_BYTES,
        !s.contains(','),
        !has_dotdot(s),
        !s.contains('/'),
        !s.contains('\\'),
    ensures
        location_problem(s) is None <==> forall|i: int|
            0 <= i < s.len() ==> {
                let c = #[trigger] s[i];
                ||| unicode_alphanumeric(c)
                ||| is_unicode_whitespace(c)
                ||| c == '-'
                ||| c == '_'
                ||| c == ','
                ||| c == '\''
                ||| c == '.'
            },
        location_problem(s) is Some ==> location_problem(s) == Some(bad_characters_message()),
{
}

/// Checks the location asked for. Returns `Ok` for the empty location, for a
/// pair of coordinates and for a place name of allowed characters, and
/// `InvalidInput` with the reason otherwise.
#[verifier::loop_isolation(false)]
pub fn validate_location(location: &str) -> (r: Result<(), AppError>)
    ensures
        match r {
            Ok(_) => location_problem(location@) is None,
            Err(e) => e matches AppError::InvalidInput(m) && location_problem(location@) == Some(m@),
        },
{
    let v = chars_of(location);
    if v.len() == 0 {
        return Ok(());
    }
    if utf8_longer_than(location, MAX_LOCATION_BYTES) {
        return Err(AppError::InvalidInput("Localização muito longa (máx. 256 caracteres)".to_owned()));
    }
    if contains_char(&v, ',') {
        if is_coordinates(&v) {
            return Ok(());
        }
        return Err(AppError::InvalidInput("Coordenadas inválidas. Use formato: lat,lon".to_owned()));
    }
    if holds_dotdot(&v) || contains_char(&v, '/') || contains_char(&v, '\\') {
        return Err(AppError::InvalidInput("Localização contém caracteres inválidos".to_owned()));
    }
    let mut i: usize = 0;
    while i < v.len()
        invariant
            v@ == location@,
            i <= v.len(),
            forall|j: int| 0 <= j < i ==> allowed_location_char(#[trigger] v@[j]),
        decreases v.len() - i,
    {
        if !is_allowed_location_char(v[i]) {
            return Err(AppError::InvalidInput("Localização contém caracteres inválidos".to_owned()));
        }
        i = i + 1;
    }
    Ok(())
}

} // verus!
