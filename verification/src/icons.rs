//! The icons of the weather conditions and of the phases of the moon.
use vstd::prelude::*;
use std::collections::HashMap;
use crate::text::str_eq;

verus! {

broadcast use vstd::std_specs::hash::group_hash_axioms;

/// The lowest weather code that has an icon.
pub const LOWEST_WEATHER_CODE: i32 = 113;

/// The highest weather code that has an icon.
pub const HIGHEST_WEATHER_CODE: i32 = 395;

/// The emoji of the weather code `code`, where it has one.
#[verifier::opaque]
pub open spec fn emoji_icon(code: i32) -> Option<Seq<char>> {
    match code {
        113 => Some("☀️"@),
        116 => Some("⛅"@),
        119 => Some("☁️"@),
        122 => Some("☁️"@),
        143 => Some("🌫️"@),
        176 => Some("🌦️"@),
        179 => Some("🌨️"@),
        182 => Some("🌨️"@),
        185 => Some("🌨️"@),
        200 => Some("⛈️"@),
        227 => Some("🌨️"@),
        230 => Some("❄️"@),
        248 => Some("🌫️"@),
        260 => Some("🌫️"@),
        263 => Some("🌦️"@),
        266 => Some("🌦️"@),
        281 => Some("🌧️"@),
        284 => Some("🌧️"@),
        293 => Some("🌦️"@),
        296 => Some("🌦️"@),
        299 => Some("🌧️"@),
        302 => Some("🌧️"@),
        305 => Some("🌧️"@),
        308 => Some("🌧️"@),
        311 => Some("🌧️"@),
        314 => Some("🌨️"@),
        317 => Some("🌨️"@),
        320 => Some("🌨️"@),
        323 => Some("🌨️"@),
        326 => Some("❄️"@),
        329 => Some("❄️"@),
        332 => Some("❄️"@),
        335 => Some("❄️"@),
        338 => Some("❄️"@),
        350 => Some("🌨️"@),
        353 => Some("🌦️"@),
        356 => Some("🌧️"@),
        359 => Some("🌧️"@),
        362 => Some("🌨️"@),
        365 => Some("🌨️"@),
        368 => Some("🌨️"@),
        371 => Some("❄️"@),
        374 => Some("🌨️"@),
        377 => Some("🌨️"@),
        386 => Some("⛈️"@),
        389 => Some("⛈️"@),
        392 => Some("⛈️"@),
        395 => Some("❄️"@),
        _ => None,
    }
}

/// The emoji of the weather code `code`, where it has one.
fn emoji_icon_of(code: i32) -> (r: Option<&'static str>)
    ensures
        match r {
            Some(s) => emoji_icon(code) == Some(s@),
            None => emoji_icon(code) is None,
        },
{
    reveal(emoji_icon);
    match code {
        113 => Some("☀️"),
        116 => Some("⛅"),
        119 => Some("☁️"),
        122 => Some("☁️"),
        143 => Some("🌫️"),
        176 => Some("🌦️"),
        179 => Some("🌨️"),
        182 => Some("🌨️"),
        185 => Some("🌨️"),
        200 => Some("⛈️"),
        227 => Some("🌨️"),
        230 => Some("❄️"),
        248 => Some("🌫️"),
        260 => Some("🌫️"),
        263 => Some("🌦️"),
        266 => Some("🌦️"),
        281 => Some("🌧️"),
        284 => Some("🌧️"),
        293 => Some("🌦️"),
        296 => Some("🌦️"),
        299 => Some("🌧️"),
        302 => Some("🌧️"),
        305 => Some("🌧️"),
        308 => Some("🌧️"),
        311 => Some("🌧️"),
        314 => Some("🌨️"),
        317 => Some("🌨️"),
        320 => Some("🌨️"),
        323 => Some("🌨️"),
        326 => Some("❄️"),
        329 => Some("❄️"),
        332 => Some("❄️"),
        335 => Some("❄️"),
        338 => Some("❄️"),
        350 => Some("🌨️"),
        353 => Some("🌦️"),
        356 => Some("🌧️"),
        359 => Some("🌧️"),
        362 => Some("🌨️"),
        365 => Some("🌨️"),
        368 => Some("🌨️"),
        371 => Some("❄️"),
        374 => Some("🌨️"),
        377 => Some("🌨️"),
        386 => Some("⛈️"),
        389 => Some("⛈️"),
        392 => Some("⛈️"),
        395 => Some("❄️"),
        _ => None,
    }
}

/// The Nerd Fonts glyph of the weather code `code`, where it has one.
#[verifier::opaque]
pub open spec fn nerd_icon(code: i32) -> Option<Seq<char>> {
    match code {
        113 => Some("󰖙"@),
        116 => Some("󰖕"@),
        119 => Some("󰖐"@),
        122 => Some("󰖐"@),
        143 => Some("󰖑"@),
        176 => Some("󰼳"@),
        179 => Some("󰼴"@),
        182 => Some("󰼴"@),
        185 => Some("󰼴"@),
        200 => Some("󰙾"@),
        227 => Some("󰼴"@),
        230 => Some("󰼶"@),
        248 => Some("󰖑"@),
        260 => Some("󰖑"@),
        263 => Some("󰼳"@),
        266 => Some("󰼳"@),
        281 => Some("󰼱"@),
        284 => Some("󰼱"@),
        293 => Some("󰼳"@),
        296 => Some("󰼳"@),
        299 => Some("󰼱"@),
        302 => Some("󰼱"@),
        305 => Some("󰼱"@),
        308 => Some("󰼱"@),
        311 => Some("󰼱"@),
        314 => Some("󰼴"@),
        317 => Some("󰼴"@),
        320 => Some("󰼴"@),
        323 => Some("󰼴"@),
        326 => Some("󰼶"@),
        329 => Some("󰼶"@),
        332 => Some("󰼶"@),
        335 => Some("󰼶"@),
        338 => Some("󰼶"@),
        350 => Some("󰼴"@),
        353 => Some("󰼳"@),
        356 => Some("󰼱"@),
        359 => Some("󰼱"@),
        362 => Some("󰼴"@),
        365 => Some("󰼴"@),
        368 => Some("󰼴"@),
        371 => Some("󰼶"@),
        374 => Some("󰼴"@),
        377 => Some("󰼴"@),
        386 => Some("󰙾"@),
        389 => Some("󰙾"@),
        392 => Some("󰙾"@),
        395 => Some("󰼶"@),
        _ => None,
    }
}

/// The Nerd Fonts glyph of the weather code `code`, where it has one.
fn nerd_icon_of(code: i32) -> (r: Option<&'static str>)
    ensures
        match r {
            Some(s) => nerd_icon(code) == Some(s@),
            None => nerd_icon(code) is None,
        },
{
    reveal(nerd_icon);
    match code {
        113 => Some("󰖙"),
        116 => Some("󰖕"),
        119 => Some("󰖐"),
        122 => Some("󰖐"),
        143 => Some("󰖑"),
        176 => Some("󰼳"),
        179 => Some("󰼴"),
        182 => Some("󰼴"),
        185 => Some("󰼴"),
        200 => Some("󰙾"),
        227 => Some("󰼴"),
        230 => Some("󰼶"),
        248 => Some("󰖑"),
        260 => Some("󰖑"),
        263 => Some("󰼳"),
        266 => Some("󰼳"),
        281 => Some("󰼱"),
        284 => Some("󰼱"),
        293 => Some("󰼳"),
        296 => Some("󰼳"),
        299 => Some("󰼱"),
        302 => Some("󰼱"),
        305 => Some("󰼱"),
        308 => Some("󰼱"),
        311 => Some("󰼱"),
        314 => Some("󰼴"),
        317 => Some("󰼴"),
        320 => Some("󰼴"),
        323 => Some("󰼴"),
        326 => Some("󰼶"),
        329 => Some("󰼶"),
        332 => Some("󰼶"),
        335 => Some("󰼶"),
        338 => Some("󰼶"),
        350 => Some("󰼴"),
        353 => Some("󰼳"),
        356 => Some("󰼱"),
        359 => Some("󰼱"),
        362 => Some("󰼴"),
        365 => Some("󰼴"),
        368 => Some("󰼴"),
        371 => Some("󰼶"),
        374 => Some("󰼴"),
        377 => Some("󰼴"),
        386 => Some("󰙾"),
        389 => Some("󰙾"),
        392 => Some("󰙾"),
        395 => Some("󰼶"),
        _ => None,
    }
}

/// The icon of `code` in the emoji set, or in the Nerd Fonts set where `nerd`.
pub open spec fn weather_icon(code: i32, nerd: bool) -> Option<Seq<char>> {
    if nerd {
        nerd_icon(code)
    } else {
        emoji_icon(code)
    }
}

/// Law: the emoji set and the Nerd Fonts set give icons to the same weather
/// codes, so switching sets never turns an icon into the thermometer.
pub proof fn law_icon_sets_cover_the_same_codes(code: i32)
    ensures
        emoji_icon(code) is Some <==> nerd_icon(code) is Some,
{
    reveal(emoji_icon);
    reveal(nerd_icon);
}

/// The kind of weather of a code that has an icon: codes of one kind share
/// their emoji and their Nerd Fonts glyph.
spec fn weather_kind(code: i32) -> int {
    match code {
        113 => 0,
        116 => 1,
        119 => 2,
        122 => 2,
        143 => 3,
        176 => 4,
        179 => 5,
        182 => 5,
        185 => 5,
        200 => 6,
        227 => 5,
        230 => 7,
        248 => 3,
        260 => 3,
        263 => 4,
        266 => 4,
        281 => 8,
        284 => 8,
        293 => 4,
        296 => 4,
        299 => 8,
        302 => 8,
        305 => 8,
        308 => 8,
        311 => 8,
        314 => 5,
        317 => 5,
        320 => 5,
        323 => 5,
        326 => 7,
        329 => 7,
        332 => 7,
        335 => 7,
        338 => 7,
        350 => 5,
        353 => 4,
        356 => 8,
        359 => 8,
        362 => 5,
        365 => 5,
        368 => 5,
        371 => 7,
        374 => 5,
        377 => 5,
        386 => 6,
        389 => 6,
        392 => 6,
        395 => 7,
        _ => -1,
    }
}

/// The emoji of a kind of weather.
spec fn kind_emoji(k: int) -> Seq<char> {
    if k == 0 {
        "☀️"@
    } else if k == 1 {
        "⛅"@
    } else if k == 2 {
        "☁️"@
    } else if k == 3 {
        "🌫️"@
    } else if k == 4 {
        "🌦️"@
    } else if k == 5 {
        "🌨️"@
    } else if k == 6 {
        "⛈️"@
    } else if k == 7 {
        "❄️"@
    } else {
        "🌧️"@
    }
}

/// The Nerd Fonts glyph of a kind of weather.
spec fn kind_glyph(k: int) -> Seq<char> {
    if k == 0 {
        "󰖙"@
    } else if k == 1 {
        "󰖕"@
    } else if k == 2 {
        "󰖐"@
    } else if k == 3 {
        "󰖑"@
    } else if k == 4 {
        "󰼳"@
    } else if k == 5 {
        "󰼴"@
    } else if k == 6 {
        "󰙾"@
    } else if k == 7 {
        "󰼶"@
    } else {
        "󰼱"@
    }
}

/// Each code with an icon has a kind, and both sets give it the icons of that
/// kind.
proof fn lemma_icons_of_kind(code: i32)
    ensures
        emoji_icon(code) is Some <==> 0 <= weather_kind(code) < 9,
        nerd_icon(code) is Some <==> 0 <= weather_kind(code) < 9,
        emoji_icon(code) is Some ==> emoji_icon(code) == Some(kind_emoji(weather_kind(code))),
        nerd_icon(code) is Some ==> nerd_icon(code) == Some(kind_glyph(weather_kind(code))),
{
    reveal(emoji_icon);
    reveal(nerd_icon);
}

/// Different kinds have different emoji and different glyphs.
proof fn lemma_kinds_distinct(a: int, b: int)
    requires
        0 <= a < 9,
        0 <= b < 9,
        a != b,
    ensures
        kind_emoji(a) != kind_emoji(b),
        kind_glyph(a) != kind_glyph(b),
{
    reveal_strlit("☀️");
    reveal_strlit("󰖙");
    reveal_strlit("⛅");
    reveal_strlit("󰖕");
    reveal_strlit("☁️");
    reveal_strlit("󰖐");
    reveal_strlit("🌫️");
    reveal_strlit("󰖑");
    reveal_strlit("🌦️");
    reveal_strlit("󰼳");
    reveal_strlit("🌨️");
    reveal_strlit("󰼴");
    reveal_strlit("⛈️");
    reveal_strlit("󰙾");
    reveal_strlit("❄️");
    reveal_strlit("󰼶");
    reveal_strlit("🌧️");
    reveal_strlit("󰼱");
    assert(kind_emoji(0)[0] == '\u{2600}');
    assert(kind_glyph(0)[0] == '\u{f0599}');
    assert(kind_emoji(1)[0] == '\u{26c5}');
    assert(kind_glyph(1)[0] == '\u{f0595}');
    assert(kind_emoji(2)[0] == '\u{2601}');
    assert(kind_glyph(2)[0] == '\u{f0590}');
    assert(kind_emoji(3)[0] == '\u{1f32b}');
    assert(kind_glyph(3)[0] == '\u{f0591}');
    assert(kind_emoji(4)[0] == '\u{1f326}');
    assert(kind_glyph(4)[0] == '\u{f0f33}');
    assert(kind_emoji(5)[0] == '\u{1f328}');
    assert(kind_glyph(5)[0] == '\u{f0f34}');
    assert(kind_emoji(6)[0] == '\u{26c8}');
    assert(kind_glyph(6)[0] == '\u{f067e}');
    assert(kind_emoji(7)[0] == '\u{2744}');
    assert(kind_glyph(7)[0] == '\u{f0f36}');
    assert(kind_emoji(8)[0] == '\u{1f327}');
    assert(kind_glyph(8)[0] == '\u{f0f31}');
}

/// Law: the emoji set and the Nerd Fonts set sort the weather codes into the
/// same kinds: two codes share an emoji exactly when they share a glyph. So a
/// code never shows the emoji of one weather and the glyph of another.
pub proof fn law_icon_sets_agree_on_kind(a: i32, b: i32)
    requires
        emoji_icon(a) is Some,
        emoji_icon(b) is Some,
    ensures
        emoji_icon(a) == emoji_icon(b) <==> nerd_icon(a) == nerd_icon(b),
{
    lemma_icons_of_kind(a);
    lemma_icons_of_kind(b);
    if weather_kind(a) != weather_kind(b) {
        lemma_kinds_distinct(weather_kind(a), weather_kind(b));
    }
}

/// Law: the sun belongs to clear weather alone: code 113 is the one code
/// whose emoji is the sun and whose glyph is the sun glyph.
pub proof fn law_sun_only_for_clear_sky(code: i32)
    ensures
        emoji_icon(code) == Some("☀️"@) <==> code == 113,
        nerd_icon(code) == Some("󰖙"@) <==> code == 113,
{
    lemma_icons_of_kind(code);
    lemma_icons_of_kind(113);
    assert(weather_kind(113) == 0);
    if 0 <= weather_kind(code) < 9 && weather_kind(code) != 0 {
        lemma_kinds_distinct(weather_kind(code), 0);
    }
}

/// The icon shown for a weather code that has none.
pub open spec fn unknown_icon() -> Seq<char> {
    "🌡️"@
}

/// The icon shown for `code`: its own, or the thermometer where it has none.
pub open spec fn weather_icon_text(code: i32, nerd: bool) -> Seq<char> {
    match weather_icon(code, nerd) {
        Some(s) => s,
        None => unknown_icon(),
    }
}

/// Whether `m` maps each weather code that has an icon in the chosen set to
/// its icon, and holds no other code.
pub open spec fn is_icon_map(m: Map<i32, String>, nerd: bool) -> bool {
    &&& forall|k: i32| #[trigger] m.contains_key(k) <==> weather_icon(k, nerd) is Some
    &&& forall|k: i32| m.contains_key(k) ==> Some(#[trigger] m[k]@) == weather_icon(k, nerd)
}

/// The map of the icons of the chosen set.
fn icon_map(nerd: bool) -> (m: HashMap<i32, String>)
    ensures
        is_icon_map(m@, nerd),
{
    let mut m: HashMap<i32, String> = HashMap::new();
    let mut code: i32 = LOWEST_WEATHER_CODE;
    while code <= HIGHEST_WEATHER_CODE
        invariant
            LOWEST_WEATHER_CODE <= code <= HIGHEST_WEATHER_CODE + 1,
            forall|k: i32| #[trigger] m@.contains_key(k) <==> (LOWEST_WEATHER_CODE <= k < code
                && weather_icon(k, nerd) is Some),
            forall|k: i32| m@.contains_key(k) ==> Some(#[trigger] m@[k]@) == weather_icon(k, nerd),
        decreases HIGHEST_WEATHER_CODE + 1 - code,
    {
        let icon = if nerd {
            nerd_icon_of(code)
        } else {
            emoji_icon_of(code)
        };
        if let Some(s) = icon {
            m.insert(code, s.to_owned());
        }
        code = code + 1;
    }
    assert forall|k: i32| weather_icon(k, nerd) is Some implies LOWEST_WEATHER_CODE <= k
        <= HIGHEST_WEATHER_CODE by {
        reveal(emoji_icon);
        reveal(nerd_icon);
    }
    m
}

/// The map from each weather code that has an emoji to its emoji.
pub fn get_weather_codes_map() -> (m: HashMap<i32, String>)
    ensures
        is_icon_map(m@, false),
{
    icon_map(false)
}

/// The map from each weather code that has a Nerd Fonts glyph to its glyph.
pub fn get_weather_codes_nerd_map() -> (m: HashMap<i32, String>)
    ensures
        is_icon_map(m@, true),
{
    icon_map(true)
}

/// The icon of `code` looked up in a map of the icons of the chosen set; a
/// thermometer for a code without one.
pub fn icon_from_map(map: &HashMap<i32, String>, code: i32, nerd: bool) -> (icon: String)
    requires
        is_icon_map(map@, nerd),
    ensures
        icon@ == weather_icon_text(code, nerd),
{
    match map.get(&code) {
        Some(s) => s.clone(),
        None => "🌡️".to_owned(),
    }
}

/// The icon of the weather code `code`, from the Nerd Fonts set where `nerd`;
/// a thermometer for a code without one.
pub fn get_weather_icon(code: i32, nerd: bool) -> (icon: String)
    ensures
        icon@ == weather_icon_text(code, nerd),
{
    let map = if nerd {
        get_weather_codes_nerd_map()
    } else {
        get_weather_codes_map()
    };
    icon_from_map(&map, code, nerd)
}

/// What `str::to_lowercase` gives for `s` (lower case by the Unicode
/// `Lowercase` mapping).
pub uninterp spec fn unicode_lowercase(s: Seq<char>) -> Seq<char>;

/// `str::to_lowercase`. Claimed: the result is a function of the text alone,
/// named `unicode_lowercase`; the Unicode mapping itself is not written out.
#[verifier::external_body]
fn to_lowercase(s: &str) -> (r: String)
    ensures
        r@ == unicode_lowercase(s@),
{
    s.to_lowercase()
}

/// The icon of a phase of the moon, named in lower case; a new moon for a name
/// it does not know.
pub open spec fn moon_icon(lower: Seq<char>) -> Seq<char> {
    if lower == "new moon"@ {
        "🌑"@
    } else if lower == "waxing crescent"@ {
        "🌒"@
    } else if lower == "first quarter"@ {
        "🌓"@
    } else if lower == "waxing gibbous"@ {
        "🌔"@
    } else if lower == "full moon"@ {
        "🌕"@
    } else if lower == "waning gibbous"@ {
        "🌖"@
    } else if lower == "last quarter"@ {
        "🌗"@
    } else if lower == "waning crescent"@ {
        "🌘"@
    } else {
        "🌑"@
    }
}

/// Whether `lower` is the name of one of the eight phases of the moon.
pub open spec fn is_phase_name(lower: Seq<char>) -> bool {
    lower == "new moon"@
    || lower == "waxing crescent"@
    || lower == "first quarter"@
    || lower == "waxing gibbous"@
    || lower == "full moon"@
    || lower == "waning gibbous"@
    || lower == "last quarter"@
    || lower == "waning crescent"@
}

/// Law: the icon of a phase of the moon is the new moon unless its name in
/// lower case is one of the eight phases, and then it is that phase's own; it
/// is one of the eight icons in any case. The glyph set does not enter it:
/// `format_moon_phase_icon` gives `moon_icon(unicode_lowercase(phase))` for
/// both sets.
pub proof fn law_moon_icon_by_name(phase: Seq<char>)
    ensures
        !is_phase_name(unicode_lowercase(phase)) ==> moon_icon(unicode_lowercase(phase)) == "🌑"@,
        unicode_lowercase(phase) == "new moon"@ ==> moon_icon(unicode_lowercase(phase)) == "🌑"@,
        unicode_lowercase(phase) == "waxing crescent"@ ==> moon_icon(unicode_lowercase(phase)) == "🌒"@,
        unicode_lowercase(phase) == "first quarter"@ ==> moon_icon(unicode_lowercase(phase)) == "🌓"@,
        unicode_lowercase(phase) == "waxing gibbous"@ ==> moon_icon(unicode_lowercase(phase)) == "🌔"@,
        unicode_lowercase(phase) == "full moon"@ ==> moon_icon(unicode_lowercase(phase)) == "🌕"@,
        unicode_lowercase(phase) == "waning gibbous"@ ==> moon_icon(unicode_lowercase(phase)) == "🌖"@,
        unicode_lowercase(phase) == "last quarter"@ ==> moon_icon(unicode_lowercase(phase)) == "🌗"@,
        unicode_lowercase(phase) == "waning crescent"@ ==> moon_icon(unicode_lowercase(phase)) == "🌘"@,
        moon_icon(unicode_lowercase(phase)) == "🌑"@ || moon_icon(unicode_lowercase(phase)) == "🌒"@ || moon_icon(unicode_lowercase(phase)) == "🌓"@ || moon_icon(unicode_lowercase(phase)) == "🌔"@ || moon_icon(unicode_lowercase(phase)) == "🌕"@ || moon_icon(unicode_lowercase(phase)) == "🌖"@ || moon_icon(unicode_lowercase(phase)) == "🌗"@ || moon_icon(unicode_lowercase(phase)) == "🌘"@,
{
    reveal_strlit("new moon");
    reveal_strlit("waxing crescent");
    reveal_strlit("first quarter");
    reveal_strlit("waxing gibbous");
    reveal_strlit("full moon");
    reveal_strlit("waning gibbous");
    reveal_strlit("last quarter");
    reveal_strlit("waning crescent");
    assert("waxing crescent"@.len() != "new moon"@.len());
    assert("first quarter"@.len() != "new moon"@.len());
    assert("first quarter"@.len() != "waxing crescent"@.len());
    assert("waxing gibbous"@.len() != "new moon"@.len());
    assert("waxing gibbous"@.len() != "waxing crescent"@.len());
    assert("waxing gibbous"@.len() != "first quarter"@.len());
    assert("full moon"@.len() != "new moon"@.len());
    assert("full moon"@.len() != "waxing crescent"@.len());
    assert("full moon"@.len() != "first quarter"@.len());
    assert("full moon"@.len() != "waxing gibbous"@.len());
    assert("waning gibbous"@.len() != "new moon"@.len());
    assert("waning gibbous"@.len() != "waxing crescent"@.len());
    assert("waning gibbous"@.len() != "first quarter"@.len());
    assert("waning gibbous"@[2] != "waxing gibbous"@[2]);
    assert("waning gibbous"@.len() != "full moon"@.len());
    assert("last quarter"@.len() != "new moon"@.len());
    assert("last quarter"@.len() != "waxing crescent"@.len());
    assert("last quarter"@.len() != "first quarter"@.len());
    assert("last quarter"@.len() != "waxing gibbous"@.len());
    assert("last quarter"@.len() != "full moon"@.len());
    assert("last quarter"@.len() != "waning gibbous"@.len());
    assert("waning crescent"@.len() != "new moon"@.len());
    assert("waning crescent"@[2] != "waxing crescent"@[2]);
    assert("waning crescent"@.len() != "first quarter"@.len());
    assert("waning crescent"@.len() != "waxing gibbous"@.len());
    assert("waning crescent"@.len() != "full moon"@.len());
    assert("waning crescent"@.len() != "waning gibbous"@.len());
    assert("waning crescent"@.len() != "last quarter"@.len());
}

/// The icon of a phase of the moon named in lower case.
pub fn moon_phase_icon_for(lower: &str) -> (icon: &'static str)
    ensures
        icon@ == moon_icon(lower@),
{
    if str_eq(lower, "new moon") {
        "🌑"
    } else if str_eq(lower, "waxing crescent") {
        "🌒"
    } else if str_eq(lower, "first quarter") {
        "🌓"
    } else if str_eq(lower, "waxing gibbous") {
        "🌔"
    } else if str_eq(lower, "full moon") {
        "🌕"
    } else if str_eq(lower, "waning gibbous") {
        "🌖"
    } else if str_eq(lower, "last quarter") {
        "🌗"
    } else if str_eq(lower, "waning crescent") {
        "🌘"
    } else {
        "🌑"
    }
}

/// The icon of the phase of the moon `phase`, whatever the case of its name.
/// The glyph set does not change it.
pub fn format_moon_phase_icon(phase: &str, _nerd: bool) -> (icon: &'static str)
    ensures
        icon@ == moon_icon(unicode_lowercase(phase@)),
{
    let lower = to_lowercase(phase);
    moon_phase_icon_for(lower.as_str())
}

} // verus!
