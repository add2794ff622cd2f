//! The markup of the tooltip is the library's own: the texts of the report
//! reach it only escaped, so they cannot open a tag.
use vstd::prelude::*;
use crate::clock::{day_date, localized_date};
use crate::html::{html_escaped, law_escaped_is_free_of_markup};
use crate::icons::{emoji_icon, moon_icon, nerd_icon, unicode_lowercase, unknown_icon,
    weather_icon_text};
use crate::numeric::parse_i32_text;
use crate::lang::{Lang, chance_of_rain_text, chance_of_snow_text, feels_like_text, humidity_text,
    locale_text, location_label_text, observation_time_text, today_text, tomorrow_text, wind_text};
use crate::model::{Args, CurrentCondition, DayForecast, HourlyForecast, NearestArea};
use crate::report::{chance_text, chances_text, join_part};
use crate::tooltip::{astronomy_text, chances_suffix, current_text, day_text,
    day_word, forecast_text, heading_text, hour_icon, hour_text, hours_seq_text, hours_text,
    observation_line, temps_text, upcoming_count, wind_unit};

verus! {

/// Whether a tag of the tooltip, `<b>`, `</b>`, `<i>` or `</i>`, begins in
/// `t` at `i`.
pub open spec fn opens_tag_at(t: Seq<char>, i: int) -> bool {
    ||| i + 3 <= t.len() && t.subrange(i, i + 3) == seq!['<', 'b', '>']
    ||| i + 4 <= t.len() && t.subrange(i, i + 4) == seq!['<', '/', 'b', '>']
    ||| i + 3 <= t.len() && t.subrange(i, i + 3) == seq!['<', 'i', '>']
    ||| i + 4 <= t.len() && t.subrange(i, i + 4) == seq!['<', '/', 'i', '>']
}

/// Whether every `<` of `t` begins one of the tags of the tooltip.
pub open spec fn markup_is_fixed(t: Seq<char>) -> bool {
    forall|i: int| 0 <= i < t.len() && #[trigger] t[i] == '<' ==> opens_tag_at(t, i)
}

/// Whether `t` holds no `<`.
pub open spec fn no_tag(t: Seq<char>) -> bool {
    forall|i: int| 0 <= i < t.len() ==> #[trigger] t[i] != '<'
}

/// Text without `<` has no markup of its own.
pub broadcast proof fn lemma_no_tag_fixed(t: Seq<char>)
    requires
        no_tag(t),
    ensures
        #[trigger] markup_is_fixed(t),
{
}

/// Text put together from pieces whose markup is fixed has fixed markup.
pub broadcast proof fn lemma_concat_fixed(a: Seq<char>, b: Seq<char>)
    requires
        markup_is_fixed(a),
        markup_is_fixed(b),
    ensures
        #[trigger] markup_is_fixed(a + b),
{
    let t = a + b;
    assert forall|i: int| 0 <= i < t.len() && #[trigger] t[i] == '<' implies opens_tag_at(t, i) by {
        if i < a.len() {
            assert(t[i] == a[i]);
            if i + 3 <= a.len() {
                assert(t.subrange(i, i + 3) =~= a.subrange(i, i + 3));
            }
            if i + 4 <= a.len() {
                assert(t.subrange(i, i + 4) =~= a.subrange(i, i + 4));
            }
        } else {
            let j = i - a.len();
            assert(t[i] == b[j]);
            if j + 3 <= b.len() {
                assert(t.subrange(i, i + 3) =~= b.subrange(j, j + 3));
            }
            if j + 4 <= b.len() {
                assert(t.subrange(i, i + 4) =~= b.subrange(j, j + 4));
            }
        }
    }
}

/// Escaped text has no markup of its own.
pub broadcast proof fn lemma_escaped_fixed(s: Seq<char>)
    ensures
        #[trigger] markup_is_fixed(html_escaped(s)),
{
    law_escaped_is_free_of_markup(s);
}

/// The empty text has no markup.
proof fn lemma_empty_fixed()
    ensures
        markup_is_fixed(Seq::<char>::empty()),
{
}

/// The words of every language hold no `<`.
proof fn lemma_words_have_no_tag(l: Lang)
    ensures
        no_tag(feels_like_text(l)),
        no_tag(wind_text(l)),
        no_tag(humidity_text(l)),
        no_tag(location_label_text(l)),
        no_tag(observation_time_text(l)),
        no_tag(today_text(l)),
        no_tag(tomorrow_text(l)),
        no_tag(chance_of_rain_text(l)),
        no_tag(chance_of_snow_text(l)),
{
    reveal_strlit("Amanhã");
    reveal_strlit("Aujourd'hui");
    reveal_strlit("Beobachtungszeit");
    reveal_strlit("Chance de chuva");
    reveal_strlit("Chance de neve");
    reveal_strlit("Chance of rain");
    reveal_strlit("Chance of snow");
    reveal_strlit("Demain");
    reveal_strlit("Feels like");
    reveal_strlit("Gefühlt wie");
    reveal_strlit("Heure d'observation");
    reveal_strlit("Heute");
    reveal_strlit("Hoje");
    reveal_strlit("Hora da observação");
    reveal_strlit("Hora de observación");
    reveal_strlit("Hoy");
    reveal_strlit("Humedad");
    reveal_strlit("Humidity");
    reveal_strlit("Humidité");
    reveal_strlit("Localisation");
    reveal_strlit("Localização");
    reveal_strlit("Location");
    reveal_strlit("Luftfeuchtigkeit");
    reveal_strlit("Mañana");
    reveal_strlit("Morgen");
    reveal_strlit("Observation time");
    reveal_strlit("Ort");
    reveal_strlit("Probabilidad de lluvia");
    reveal_strlit("Probabilidad de nieve");
    reveal_strlit("Regenwahrscheinlichkeit");
    reveal_strlit("Ressenti");
    reveal_strlit("Risque de neige");
    reveal_strlit("Risque de pluie");
    reveal_strlit("Schneewahrscheinlichkeit");
    reveal_strlit("Sensación térmica");
    reveal_strlit("Sensação térmica");
    reveal_strlit("Today");
    reveal_strlit("Tomorrow");
    reveal_strlit("Ubicación");
    reveal_strlit("Umidade");
    reveal_strlit("Vent");
    reveal_strlit("Vento");
    reveal_strlit("Viento");
    reveal_strlit("Wind");
    reveal_strlit("de");
    reveal_strlit("de.wttr.in");
    reveal_strlit("de_DE");
    reveal_strlit("en");
    reveal_strlit("en_US");
    reveal_strlit("es");
    reveal_strlit("es.wttr.in");
    reveal_strlit("es_ES");
    reveal_strlit("fr");
    reveal_strlit("fr.wttr.in");
    reveal_strlit("fr_FR");
    reveal_strlit("pt");
    reveal_strlit("pt.wttr.in");
    reveal_strlit("pt_BR");
    reveal_strlit("wttr.in");
}

/// The pieces of text the tooltip is made of.
proof fn lemma_pieces_fixed()
    ensures
        markup_is_fixed("<b>"@),
        markup_is_fixed("</b> "@),
        markup_is_fixed("°\n"@),
        markup_is_fixed(": "@),
        markup_is_fixed(" "@),
        markup_is_fixed("\n"@),
        markup_is_fixed("%\n"@),
        markup_is_fixed("mph"@),
        markup_is_fixed("km/h"@),
        markup_is_fixed("Unknown"@),
        markup_is_fixed("\n<b>"@),
        markup_is_fixed(", "@),
        markup_is_fixed("</b>\n"@),
        markup_is_fixed("\u{f0ce1}"@),
        markup_is_fixed("↑"@),
        markup_is_fixed("\u{f0d1f}"@),
        markup_is_fixed("↓"@),
        markup_is_fixed("° / "@),
        markup_is_fixed("🌅 "@),
        markup_is_fixed(" / 🌇 "@),
        markup_is_fixed("🌙 "@),
        markup_is_fixed("\n<i>"@),
        markup_is_fixed("</i>\n"@),
        markup_is_fixed("°"@),
        markup_is_fixed("("@),
        markup_is_fixed(")"@),
        markup_is_fixed("%"@),
{
    reveal_strlit("<b>");
    reveal_strlit("</b> ");
    reveal_strlit("°\n");
    reveal_strlit(": ");
    reveal_strlit(" ");
    reveal_strlit("\n");
    reveal_strlit("%\n");
    reveal_strlit("mph");
    reveal_strlit("km/h");
    reveal_strlit("Unknown");
    reveal_strlit("\n<b>");
    reveal_strlit(", ");
    reveal_strlit("</b>\n");
    reveal_strlit("\u{f0ce1}");
    reveal_strlit("↑");
    reveal_strlit("\u{f0d1f}");
    reveal_strlit("↓");
    reveal_strlit("° / ");
    reveal_strlit("🌅 ");
    reveal_strlit(" / 🌇 ");
    reveal_strlit("🌙 ");
    reveal_strlit("\n<i>");
    reveal_strlit("</i>\n");
    reveal_strlit("°");
    reveal_strlit("(");
    reveal_strlit(")");
    reveal_strlit("%");
    assert(("<b>"@).subrange(0, 3) =~= seq!['<', 'b', '>']);
    assert(("</b> "@).subrange(0, 4) =~= seq!['<', '/', 'b', '>']);
    assert(("\n<b>"@).subrange(1, 4) =~= seq!['<', 'b', '>']);
    assert(("</b>\n"@).subrange(0, 4) =~= seq!['<', '/', 'b', '>']);
    assert(("\n<i>"@).subrange(1, 4) =~= seq!['<', 'i', '>']);
    assert(("</i>\n"@).subrange(0, 4) =~= seq!['<', '/', 'i', '>']);
}

/// The icons of the weather codes hold no `<`.
proof fn lemma_weather_icon_has_no_tag(code: i32, nerd: bool)
    ensures
        no_tag(weather_icon_text(code, nerd)),
{
    reveal(emoji_icon);
    reveal(nerd_icon);
    reveal_strlit("☀️");
    reveal_strlit("☁️");
    reveal_strlit("⛅");
    reveal_strlit("⛈️");
    reveal_strlit("❄️");
    reveal_strlit("🌑");
    reveal_strlit("🌒");
    reveal_strlit("🌓");
    reveal_strlit("🌔");
    reveal_strlit("🌕");
    reveal_strlit("🌖");
    reveal_strlit("🌗");
    reveal_strlit("🌘");
    reveal_strlit("🌡️");
    reveal_strlit("🌦️");
    reveal_strlit("🌧️");
    reveal_strlit("🌨️");
    reveal_strlit("🌫️");
    reveal_strlit("󰖐");
    reveal_strlit("󰖑");
    reveal_strlit("󰖕");
    reveal_strlit("󰖙");
    reveal_strlit("󰙾");
    reveal_strlit("󰼱");
    reveal_strlit("󰼳");
    reveal_strlit("󰼴");
    reveal_strlit("󰼶");
}

/// The icons of the phases of the moon hold no `<`.
proof fn lemma_moon_icon_has_no_tag(s: Seq<char>)
    ensures
        no_tag(moon_icon(s)),
{
    reveal_strlit("🌑");
    reveal_strlit("🌒");
    reveal_strlit("🌓");
    reveal_strlit("🌔");
    reveal_strlit("🌕");
    reveal_strlit("🌖");
    reveal_strlit("🌗");
    reveal_strlit("🌘");
}

/// Whether every date that the format `fmt` writes in the locale named
/// `locale` holds no `<`.
pub open spec fn dates_have_no_tag(fmt: Seq<char>, locale: Seq<char>) -> bool {
    forall|y: i32, m: u32, d: u32|
        #[trigger] localized_date(y, m, d, fmt, locale) matches Some(t) ==> no_tag(t)
}

/// A list put together by `join_part` from pieces of fixed markup has fixed
/// markup.
proof fn lemma_join_part_fixed(a: Seq<char>, b: Seq<char>)
    requires
        markup_is_fixed(a),
        markup_is_fixed(b),
    ensures
        markup_is_fixed(join_part(a, b)),
{
    broadcast use lemma_concat_fixed;

    lemma_pieces_fixed();
}

/// The present weather has fixed markup.
proof fn lemma_current_fixed(cc: CurrentCondition, area: NearestArea, args: Args, lang: Lang)
    ensures
        markup_is_fixed(current_text(cc, area, args, lang)),
{
    broadcast use lemma_concat_fixed, lemma_no_tag_fixed, lemma_escaped_fixed;

    lemma_pieces_fixed();
    lemma_words_have_no_tag(lang);
    lemma_empty_fixed();
    assert(markup_is_fixed(wind_unit(args)));
    assert(markup_is_fixed(observation_line(cc, args, lang)));
}

/// One hour of the forecast has fixed markup.
proof fn lemma_hour_fixed(h: HourlyForecast, args: Args, lang: Lang)
    ensures
        markup_is_fixed(hour_text(h, args, lang)),
{
    broadcast use lemma_concat_fixed, lemma_no_tag_fixed, lemma_escaped_fixed;

    lemma_pieces_fixed();
    lemma_words_have_no_tag(lang);
    lemma_empty_fixed();
    reveal_strlit("🌡️");
    assert(no_tag(unknown_icon()));
    match h.weather_code {
        Some(c) => match parse_i32_text(c@) {
            Some(code) => lemma_weather_icon_has_no_tag(code, args.nerd),
            None => {},
        },
        None => {},
    }
    assert(markup_is_fixed(hour_icon(h, args.nerd)));
    let rain = chance_text(chance_of_rain_text(lang), h.chance_of_rain);
    let snow = chance_text(chance_of_snow_text(lang), h.chance_of_snow);
    assert(markup_is_fixed(rain));
    assert(markup_is_fixed(snow));
    lemma_join_part_fixed(Seq::empty(), rain);
    lemma_join_part_fixed(join_part(Seq::empty(), rain), snow);
    assert(markup_is_fixed(chances_text(h, lang)));
    assert(markup_is_fixed(chances_suffix(h, lang)));
}

/// Hours one after the other have fixed markup.
proof fn lemma_hours_seq_fixed(hs: Seq<HourlyForecast>, args: Args, lang: Lang)
    ensures
        markup_is_fixed(hours_seq_text(hs, args, lang)),
    decreases hs.len(),
{
    broadcast use lemma_concat_fixed;

    if hs.len() == 0 {
        lemma_empty_fixed();
    } else {
        lemma_hours_seq_fixed(hs.drop_last(), args, lang);
        lemma_hour_fixed(hs.last(), args, lang);
    }
}

/// One day of the forecast has fixed markup, where its date heading has.
proof fn lemma_day_fixed(day: DayForecast, position: nat, args: Args, lang: Lang)
    requires
        dates_have_no_tag(args.date_format@, locale_text(lang)),
    ensures
        markup_is_fixed(day_text(day, position, args, lang)),
{
    broadcast use lemma_concat_fixed, lemma_no_tag_fixed, lemma_escaped_fixed;

    lemma_pieces_fixed();
    lemma_words_have_no_tag(lang);
    lemma_empty_fixed();
    assert(markup_is_fixed(day_word(position, lang)));
    match day_date(day) {
        Some((y, m, d)) => {
            let h = localized_date(y, m, d, args.date_format@, locale_text(lang));
            if h is Some {
                assert(no_tag(h->0));
            }
        },
        None => {},
    }
    assert(markup_is_fixed(heading_text(day, args, lang)));
    assert(markup_is_fixed(temps_text(day, args)));
    match day.astronomy {
        Some(a) => match a.moon_phase {
            Some(p) => lemma_moon_icon_has_no_tag(unicode_lowercase(p@)),
            None => {},
        },
        None => {},
    }
    assert(markup_is_fixed(astronomy_text(day, args)));
    match day.hourly {
        Some(hs) => {
            lemma_hours_seq_fixed(hs@.take(if hs@.len() < 24 { hs@.len() as int } else { 24 }), args, lang);
        },
        None => {},
    }
    assert(markup_is_fixed(hours_text(day, args, lang)));
}

/// The forecast has fixed markup, where its date headings have.
proof fn lemma_forecast_fixed(
    days: Seq<DayForecast>,
    args: Args,
    lang: Lang,
    today: (i32, u32, u32),
)
    requires
        dates_have_no_tag(args.date_format@, locale_text(lang)),
    ensures
        markup_is_fixed(forecast_text(days, args, lang, today)),
    decreases days.len(),
{
    broadcast use lemma_concat_fixed;

    if days.len() == 0 {
        lemma_empty_fixed();
    } else {
        lemma_forecast_fixed(days.drop_last(), args, lang, today);
        lemma_day_fixed(days.last(), upcoming_count(days.drop_last(), today), args, lang);
        lemma_empty_fixed();
    }
}

/// Law: whatever texts a report holds, every `<` in the tooltip opens one of
/// the tooltip's own tags `<b>`, `</b>`, `<i>` and `</i>`, provided the date
/// format asked for writes none itself: the report cannot add markup.
pub proof fn law_report_adds_no_markup(
    cc: CurrentCondition,
    area: NearestArea,
    days: Seq<DayForecast>,
    args: Args,
    lang: Lang,
    today: (i32, u32, u32),
)
    requires
        dates_have_no_tag(args.date_format@, locale_text(lang)),
    ensures
        markup_is_fixed(current_text(cc, area, args, lang) + forecast_text(days, args, lang, today)),
{
    lemma_current_fixed(cc, area, args, lang);
    lemma_forecast_fixed(days, args, lang, today);
    lemma_concat_fixed(current_text(cc, area, args, lang), forecast_text(days, args, lang, today));
}

} // verus!
