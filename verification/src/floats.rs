//! The syntax of `f64::from_str`, whitespace and trimming: what decides
//! whether a location reads as a pair of coordinates.
use vstd::prelude::*;
use crate::numeric::{is_digit, all_digits};
use crate::text::sub_vec;

verus! {

/// Whether `c` has the Unicode `White_Space` property, as `char::is_whitespace`
/// decides it.
pub open spec fn is_unicode_whitespace(c: char) -> bool {
    ||| '\u{9}' <= c && c <= '\u{d}'
    ||| c == ' '
    ||| c == '\u{85}'
    ||| c == '\u{a0}'
    ||| c == '\u{1680}'
    ||| '\u{2000}' <= c && c <= '\u{200a}'
    ||| c == '\u{2028}'
    ||| c == '\u{2029}'
    ||| c == '\u{202f}'
    ||| c == '\u{205f}'
    ||| c == '\u{3000}'
}

/// `char::is_whitespace`.
pub fn is_whitespace_char(c: char) -> (r: bool)
    ensures
        r == is_unicode_whitespace(c),
{
    ('\u{9}' <= c && c <= '\u{d}') || c == ' ' || c == '\u{85}' || c == '\u{a0}' || c == '\u{1680}'
        || ('\u{2000}' <= c && c <= '\u{200a}') || c == '\u{2028}' || c == '\u{2029}' || c
        == '\u{202f}' || c == '\u{205f}' || c == '\u{3000}'
}

/// `s` without its leading whitespace.
pub open spec fn trim_start(s: Seq<char>) -> Seq<char>
    decreases s.len(),
{
    if s.len() > 0 && is_unicode_whitespace(s[0]) {
        trim_start(s.drop_first())
    } else {
        s
    }
}

/// `s` without its trailing whitespace.
pub open spec fn trim_end(s: Seq<char>) -> Seq<char>
    decreases s.len(),
{
    if s.len() > 0 && is_unicode_whitespace(s.last()) {
        trim_end(s.drop_last())
    } else {
        s
    }
}

/// `s` without leading and trailing whitespace, as `str::trim` gives it.
pub open spec fn trimmed(s: Seq<char>) -> Seq<char> {
    trim_end(trim_start(s))
}

/// `c` with an ASCII upper-case letter made lower-case.
pub open spec fn ascii_lower(c: char) -> char {
    if 'A' <= c && c <= 'Z' {
        ((c as int) + 32) as char
    } else {
        c
    }
}

/// Whether `s` is the lower-case word `w` up to the case of ASCII letters.
pub open spec fn matches_word(s: Seq<char>, w: Seq<char>) -> bool {
    s.len() == w.len() && forall|i: int| 0 <= i < s.len() ==> ascii_lower(#[trigger] s[i]) == w[i]
}

/// Whether `c` opens an exponent.
pub open spec fn is_exp_marker(c: char) -> bool {
    c == 'e' || c == 'E'
}

/// `Digit+ | Digit+ '.' Digit* | Digit* '.' Digit+`: digits with at most one
/// point, and at least one digit.
pub open spec fn mantissa_text(m: Seq<char>) -> bool {
    &&& forall|i: int| 0 <= i < m.len() ==> is_digit(#[trigger] m[i]) || m[i] == '.'
    &&& exists|i: int| 0 <= i < m.len() && is_digit(#[trigger] m[i])
    &&& forall|i: int, j: int| 0 <= i < j < m.len() ==> !(#[trigger] m[i] == '.' && #[trigger] m[j] == '.')
}

/// An optional sign followed by one or more digits.
pub open spec fn signed_digits(y: Seq<char>) -> bool {
    let d = if y.len() > 0 && (y[0] == '+' || y[0] == '-') { y.drop_first() } else { y };
    d.len() > 0 && all_digits(d)
}

/// Nothing, or `'e' Sign? Digit+` with either case of `e`.
pub open spec fn exponent_text(x: Seq<char>) -> bool {
    x.len() == 0 || (is_exp_marker(x[0]) && signed_digits(x.drop_first()))
}

/// `Number ::= Mantissa Exp?`
pub open spec fn number_text(b: Seq<char>) -> bool {
    exists|k: int| 0 <= k <= b.len() && mantissa_text(b.take(k)) && exponent_text(#[trigger] b.skip(k))
}

/// The word `inf`.
pub open spec fn inf_word() -> Seq<char> {
    seq!['i', 'n', 'f']
}

/// The word `infinity`.
pub open spec fn infinity_word() -> Seq<char> {
    seq!['i', 'n', 'f', 'i', 'n', 'i', 't', 'y']
}

/// The word `nan`.
pub open spec fn nan_word() -> Seq<char> {
    seq!['n', 'a', 'n']
}

/// Whether `f64::from_str` accepts `s`: by its documented grammar, an optional
/// sign, then `inf`, `infinity` or `nan` in any case, or a decimal number with
/// an optional exponent; no whitespace anywhere.
pub open spec fn float_text(s: Seq<char>) -> bool {
    let b = if s.len() > 0 && (s[0] == '+' || s[0] == '-') { s.drop_first() } else { s };
    ||| matches_word(b, inf_word())
    ||| matches_word(b, infinity_word())
    ||| matches_word(b, nan_word())
    ||| number_text(b)
}

/// `ascii_lower` in executable code.
pub fn to_ascii_lower(c: char) -> (r: char)
    ensures
        r == ascii_lower(c),
{
    if 'A' <= c && c <= 'Z' {
        let u: u8 = (c as u8) + 32;
        u as char
    } else {
        c
    }
}

/// Whether `s` is the word `w` up to the case of ASCII letters.
pub fn is_word(s: &Vec<char>, w: &Vec<char>) -> (r: bool)
    ensures
        r == matches_word(s@, w@),
{
    if s.len() != w.len() {
        return false;
    }
    let mut i: usize = 0;
    while i < s.len()
        invariant
            s.len() == w.len(),
            i <= s.len(),
            forall|j: int| 0 <= j < i ==> ascii_lower(#[trigger] s@[j]) == w@[j],
        decreases s.len() - i,
    {
        if to_ascii_lower(s[i]) != w[i] {
            return false;
        }
        i = i + 1;
    }
    true
}

/// Whether `m` is a mantissa.
fn is_mantissa(m: &Vec<char>) -> (r: bool)
    ensures
        r == mantissa_text(m@),
{
    let mut seen_digit = false;
    let mut seen_point = false;
    let mut i: usize = 0;
    while i < m.len()
        invariant
            i <= m.len(),
            forall|j: int| 0 <= j < i ==> is_digit(#[trigger] m@[j]) || m@[j] == '.',
            seen_digit <==> exists|j: int| 0 <= j < i && is_digit(#[trigger] m@[j]),
            seen_point <==> exists|j: int| 0 <= j < i && #[trigger] m@[j] == '.',
            forall|a: int, b: int| 0 <= a < b < i ==> !(#[trigger] m@[a] == '.' && #[trigger] m@[b] == '.'),
        decreases m.len() - i,
    {
        let c = m[i];
        if '0' <= c && c <= '9' {
            seen_digit = true;
        } else if c == '.' {
            if seen_point {
                let ghost a = choose|j: int| 0 <= j < i && #[trigger] m@[j] == '.';
                assert(m@[a] == '.' && m@[i as int] == '.');
                return false;
            }
            seen_point = true;
        } else {
            assert(!(is_digit(m@[i as int]) || m@[i as int] == '.'));
            return false;
        }
        i = i + 1;
    }
    seen_digit
}

/// Whether `y` is an optional sign followed by one or more digits.
fn is_signed_digits(y: &Vec<char>) -> (r: bool)
    ensures
        r == signed_digits(y@),
{
    let start: usize = if y.len() > 0 && (y[0] == '+' || y[0] == '-') { 1 } else { 0 };
    let d = sub_vec(y, start, y.len());
    assert(d@ =~= (if y@.len() > 0 && (y@[0] == '+' || y@[0] == '-') { y@.drop_first() } else { y@ }));
    if d.len() == 0 {
        return false;
    }
    let mut i: usize = 0;
    while i < d.len()
        invariant
            i <= d.len(),
            d@ == (if y@.len() > 0 && (y@[0] == '+' || y@[0] == '-') { y@.drop_first() } else { y@ }),
            forall|j: int| 0 <= j < i ==> is_digit(#[trigger] d@[j]),
        decreases d.len() - i,
    {
        if !('0' <= d[i] && d[i] <= '9') {
            assert(!is_digit(d@[i as int]));
            assert(!all_digits(d@));
            return false;
        }
        i = i + 1;
    }
    true
}

/// Whether `x` is empty or an exponent.
fn is_exponent(x: &Vec<char>) -> (r: bool)
    ensures
        r == exponent_text(x@),
{
    if x.len() == 0 {
        return true;
    }
    if !(x[0] == 'e' || x[0] == 'E') {
        return false;
    }
    let rest = sub_vec(x, 1, x.len());
    assert(rest@ =~= x@.drop_first());
    is_signed_digits(&rest)
}

/// Whether `b` is a decimal number with an optional exponent.
fn is_number(b: &Vec<char>) -> (r: bool)
    ensures
        r == number_text(b@),
{
    let mut k: usize = 0;
    while k < b.len() && !(b[k] == 'e' || b[k] == 'E')
        invariant
            k <= b.len(),
            forall|j: int| 0 <= j < k ==> !is_exp_marker(#[trigger] b@[j]),
        decreases b.len() - k,
    {
        k = k + 1;
    }
    let m = sub_vec(b, 0, k);
    let x = sub_vec(b, k, b.len());
    assert(m@ =~= b@.take(k as int));
    assert(x@ =~= b@.skip(k as int));
    let ok_m = is_mantissa(&m);
    let ok_x = is_exponent(&x);
    proof {
        if number_text(b@) {
            let k2 = choose|k2: int|
                0 <= k2 <= b@.len() && mantissa_text(b@.take(k2)) && exponent_text(#[trigger] b@.skip(k2));
            if k2 < k {
                assert(b@.skip(k2)[0] == b@[k2]);
                assert(!is_exp_marker(b@[k2]));
            } else if k2 > k {
                assert(b@.take(k2)[k as int] == b@[k as int]);
                assert(is_digit(b@.take(k2)[k as int]) || b@.take(k2)[k as int] == '.');
            }
            assert(k2 == k);
        }
    }
    ok_m && ok_x
}

/// Whether `f64::from_str` accepts the characters `s`.
pub fn is_float_text(s: &Vec<char>) -> (r: bool)
    ensures
        r == float_text(s@),
{
    let start: usize = if s.len() > 0 && (s[0] == '+' || s[0] == '-') { 1 } else { 0 };
    let b = sub_vec(s, start, s.len());
    assert(b@ =~= (if s@.len() > 0 && (s@[0] == '+' || s@[0] == '-') { s@.drop_first() } else { s@ }));
    let inf = vec!['i', 'n', 'f'];
    let infinity = vec!['i', 'n', 'f', 'i', 'n', 'i', 't', 'y'];
    let nan = vec!['n', 'a', 'n'];
    assert(inf@ =~= inf_word());
    assert(infinity@ =~= infinity_word());
    assert(nan@ =~= nan_word());
    is_word(&b, &inf) || is_word(&b, &infinity) || is_word(&b, &nan) || is_number(&b)
}

/// The characters of `v` from `lo` to `hi`, without leading and trailing
/// whitespace.
pub fn trim_range(v: &Vec<char>, lo: usize, hi: usize) -> (r: Vec<char>)
    requires
        lo <= hi <= v.len(),
    ensures
        r@ == trimmed(v@.subrange(lo as int, hi as int)),
{
    let mut a: usize = lo;
    while a < hi && is_whitespace_char(v[a])
        invariant
            lo <= a <= hi <= v.len(),
            trim_start(v@.subrange(lo as int, hi as int)) == trim_start(v@.subrange(a as int, hi as int)),
        decreases hi - a,
    {
        assert(v@.subrange(a as int, hi as int).drop_first() =~= v@.subrange(a + 1, hi as int));
        a = a + 1;
    }
    assert(trim_start(v@.subrange(a as int, hi as int)) == v@.subrange(a as int, hi as int));
    let mut b: usize = hi;
    while b > a && is_whitespace_char(v[b - 1])
        invariant
            lo <= a <= b <= hi <= v.len(),
            trim_end(v@.subrange(a as int, hi as int)) == trim_end(v@.subrange(a as int, b as int)),
        decreases b - a,
    {
        assert(v@.subrange(a as int, b as int).drop_last() =~= v@.subrange(a as int, b - 1));
        b = b - 1;
    }
    sub_vec(v, a, b)
}

} // verus!

verus! {

/// Where `trim_start` cuts: `s` loses exactly its first `a` characters, all
/// of them whitespace.
pub proof fn lemma_trim_start_cut(s: Seq<char>) -> (a: int)
    ensures
        0 <= a <= s.len(),
        trim_start(s) == s.skip(a),
        forall|j: int| 0 <= j < a ==> is_unicode_whitespace(#[trigger] s[j]),
    decreases s.len(),
{
    if s.len() > 0 && is_unicode_whitespace(s[0]) {
        let a0 = lemma_trim_start_cut(s.drop_first());
        assert(s.drop_first().skip(a0) =~= s.skip(a0 + 1));
        assert forall|j: int| 0 <= j < a0 + 1 implies is_unicode_whitespace(#[trigger] s[j]) by {
            if j > 0 {
                assert(s[j] == s.drop_first()[j - 1]);
            }
        }
        a0 + 1
    } else {
        assert(s.skip(0) =~= s);
        0
    }
}

/// Where `trim_end` cuts: `s` keeps exactly its first `b` characters, and all
/// it loses are whitespace.
pub proof fn lemma_trim_end_cut(s: Seq<char>) -> (b: int)
    ensures
        0 <= b <= s.len(),
        trim_end(s) == s.take(b),
        forall|j: int| b <= j < s.len() ==> is_unicode_whitespace(#[trigger] s[j]),
    decreases s.len(),
{
    if s.len() > 0 && is_unicode_whitespace(s.last()) {
        let b0 = lemma_trim_end_cut(s.drop_last());
        assert(s.drop_last().take(b0) =~= s.take(b0));
        assert forall|j: int| b0 <= j < s.len() implies is_unicode_whitespace(#[trigger] s[j]) by {
            if j < s.len() - 1 {
                assert(s[j] == s.drop_last()[j]);
            }
        }
        b0
    } else {
        assert(s.take(s.len() as int) =~= s);
        s.len() as int
    }
}

/// Where `trim` cuts: the trimmed text is `s[a..b]`, and everything around
/// it is whitespace.
pub proof fn lemma_trim_cut(s: Seq<char>) -> (ab: (int, int))
    ensures
        0 <= ab.0 <= ab.1 <= s.len(),
        trimmed(s) == s.subrange(ab.0, ab.1),
        forall|j: int|
            0 <= j < s.len() && !(ab.0 <= j < ab.1) ==> is_unicode_whitespace(#[trigger] s[j]),
{
    let a = lemma_trim_start_cut(s);
    let b = lemma_trim_end_cut(s.skip(a));
    assert(s.skip(a).take(b) =~= s.subrange(a, a + b));
    assert forall|j: int| 0 <= j < s.len() && !(a <= j < a + b) implies is_unicode_whitespace(
        #[trigger] s[j],
    ) by {
        if j >= a + b {
            assert(s[j] == s.skip(a)[j - a]);
        }
    }
    (a, a + b)
}

/// An exponent holds no point.
proof fn lemma_exponent_has_no_point(x: Seq<char>)
    requires
        exponent_text(x),
    ensures
        forall|i: int| 0 <= i < x.len() ==> #[trigger] x[i] != '.',
{
    assert forall|i: int| 0 <= i < x.len() implies #[trigger] x[i] != '.' by {
        if i > 0 {
            let y = x.drop_first();
            assert(y[i - 1] == x[i]);
            let d = if y.len() > 0 && (y[0] == '+' || y[0] == '-') { y.drop_first() } else { y };
            if y.len() > 0 && (y[0] == '+' || y[0] == '-') {
                if i > 1 {
                    assert(d[i - 2] == x[i]);
                }
            } else {
                assert(d[i - 1] == x[i]);
            }
        }
    }
}

/// The characters a number text can hold: never a path separator, a comma or
/// whitespace.
pub open spec fn inert_char(c: char) -> bool {
    c != '/' && c != '\\' && c != ',' && !is_unicode_whitespace(c)
}

/// Text that `f64::from_str` accepts holds no separator, comma or whitespace,
/// and never two points in a row.
pub proof fn lemma_float_text_is_inert(s: Seq<char>)
    requires
        float_text(s),
    ensures
        forall|i: int| 0 <= i < s.len() ==> inert_char(#[trigger] s[i]),
        forall|i: int| 0 <= i && i + 1 < s.len() ==> !(#[trigger] s[i] == '.' && s[i + 1] == '.'),
{
    let signed = s.len() > 0 && (s[0] == '+' || s[0] == '-');
    let b = if signed { s.drop_first() } else { s };
    let off: int = if signed { 1 } else { 0 };
    assert forall|i: int| 0 <= i < b.len() implies inert_char(#[trigger] b[i]) && b[i] != '.' || (
    number_text(b) && b[i] == '.') by {
        if matches_word(b, inf_word()) || matches_word(b, infinity_word()) || matches_word(b, nan_word()) {
            assert(ascii_lower(b[i]) != '/' && ascii_lower(b[i]) != '.');
        } else {
            let k = choose|k: int|
                0 <= k <= b.len() && mantissa_text(b.take(k)) && exponent_text(#[trigger] b.skip(k));
            if i < k {
                assert(b.take(k)[i] == b[i]);
            } else if i == k {
                assert(b.skip(k)[0] == b[i]);
            } else {
                let y = b.skip(k).drop_first();
                assert(y[i - k - 1] == b[i]);
                let d = if y.len() > 0 && (y[0] == '+' || y[0] == '-') { y.drop_first() } else { y };
                if y.len() > 0 && (y[0] == '+' || y[0] == '-') && i > k + 1 {
                    assert(d[i - k - 2] == b[i]);
                } else if !(y.len() > 0 && (y[0] == '+' || y[0] == '-')) {
                    assert(d[i - k - 1] == b[i]);
                }
            }
        }
    }
    assert forall|i: int| 0 <= i < s.len() implies inert_char(#[trigger] s[i]) by {
        if i >= off {
            assert(s[i] == b[i - off]);
        }
    }
    assert forall|i: int| 0 <= i && i + 1 < s.len() implies !(#[trigger] s[i] == '.' && s[i + 1]
        == '.') by {
        if s[i] == '.' && s[i + 1] == '.' {
            if i < off {
                assert(s[0] == '+' || s[0] == '-');
            }
            assert(s[i] == b[i - off]);
            assert(s[i + 1] == b[i + 1 - off]);
            assert(number_text(b));
            let k = choose|k: int|
                0 <= k <= b.len() && mantissa_text(b.take(k)) && exponent_text(#[trigger] b.skip(k));
            lemma_exponent_has_no_point(b.skip(k));
            if i + 1 - off < k {
                assert(b.take(k)[i - off] == '.');
                assert(b.take(k)[i + 1 - off] == '.');
            } else {
                assert(b.skip(k)[i + 1 - off - k] == b[i + 1 - off]);
            }
        }
    }
}

} // verus!
