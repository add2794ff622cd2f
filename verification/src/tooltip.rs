//! The tooltip: the present weather, then the forecast of each day from today
//! on. Every text taken from the report is escaped before it is shown.
use vstd::prelude::*;
use vstd::string::StringExecFns;
use std::collections::HashMap;
use crate::clock::{AstronomyField, ampm_time_text, astronomy_time, date_not_before, day_date,
    format_ampm_time, format_clock_time, format_time, format_time_text, is_calendar_date,
    is_not_before, local_today, localized_date, localized_day_heading, parsed_time,
    reads_as_clock_time, read_day_date, twelve_hour_format};
use crate::html::{html_escaped, escape_html};
use crate::icons::{format_moon_phase_icon, get_weather_codes_map, get_weather_codes_nerd_map,
    icon_from_map, is_icon_map, moon_icon, unicode_lowercase, unknown_icon, weather_icon_text};
use crate::lang::{Lang, feels_like_text, humidity_text, locale_text, location_label_text,
    observation_time_text, today_text, tomorrow_text, wind_text};
use crate::model::{AppError, Args, CurrentCondition, DayForecast, HourlyForecast, NearestArea,
    WeatherData, str_or, text_or};
use crate::numeric::{parse_i32_chars, parse_i32_text};
use crate::report::{build_location_string, chances_text, format_chances, location_text};
use crate::text::chars_of;

verus! {

/// Appends `t` escaped.
fn push_escaped(out: &mut String, t: &str)
    ensures
        final(out)@ == old(out)@ + html_escaped(t@),
{
    let e = escape_html(t);
    out.append(e.as_str());
}

/// The icon of an hour: that of its weather code where it reads as a number,
/// the thermometer otherwise.
pub open spec fn hour_icon(h: HourlyForecast, nerd: bool) -> Seq<char> {
    match h.weather_code {
        Some(c) => match parse_i32_text(c@) {
            Some(code) => weather_icon_text(code, nerd),
            None => unknown_icon(),
        },
        None => unknown_icon(),
    }
}

/// The temperature of an hour in the unit asked for, `?` where not given.
pub open spec fn hour_temp(h: HourlyForecast, args: Args) -> Seq<char> {
    if args.fahrenheit {
        text_or(h.temp_f, "?"@)
    } else {
        text_or(h.temp_c, "?"@)
    }
}

/// The chances of rain and snow of an hour in brackets, where there are any.
pub open spec fn chances_suffix(h: HourlyForecast, lang: Lang) -> Seq<char> {
    let chances = chances_text(h, lang);
    if chances.len() > 0 {
        "("@ + chances + ")"@
    } else {
        Seq::empty()
    }
}

/// The time of an hour as shown, escaped.
pub open spec fn hour_time(h: HourlyForecast, args: Args) -> Seq<char> {
    html_escaped(format_time_text(text_or(h.time, ""@), args.ampm))
}

/// One hour of the forecast: its time, temperature and icon, then its chances
/// of rain and snow in brackets where there are any.
pub open spec fn hour_text(h: HourlyForecast, args: Args, lang: Lang) -> Seq<char> {
    hour_time(h, args) + " "@ + html_escaped(hour_temp(h, args)) + "°"@ + hour_icon(h, args.nerd)
        + " "@ + chances_suffix(h, lang)
}

/// The hours `hs`, one after the other.
pub open spec fn hours_seq_text(hs: Seq<HourlyForecast>, args: Args, lang: Lang) -> Seq<char>
    decreases hs.len(),
{
    if hs.len() == 0 {
        Seq::empty()
    } else {
        hours_seq_text(hs.drop_last(), args, lang) + hour_text(hs.last(), args, lang)
    }
}

/// The most hours of a day that are shown.
pub const MAX_HOURS_SHOWN: usize = 24;

/// The hourly forecast of a day, in italics: its first 24 hours, unless hidden
/// or not given.
pub open spec fn hours_text(day: DayForecast, args: Args, lang: Lang) -> Seq<char> {
    match day.hourly {
        Some(hs) => if !args.hide_conditions {
            let n = if hs@.len() < MAX_HOURS_SHOWN {
                hs@.len() as int
            } else {
                MAX_HOURS_SHOWN as int
            };
            "\n<i>"@ + hours_seq_text(hs@.take(n), args, lang) + "</i>\n"@
        } else {
            Seq::empty()
        },
        None => Seq::empty(),
    }
}

/// The highest and lowest temperature of a day, with arrows.
pub open spec fn temps_text(day: DayForecast, args: Args) -> Seq<char> {
    let max = if args.fahrenheit {
        text_or(day.maxtemp_f, "?"@)
    } else {
        text_or(day.maxtemp_c, "?"@)
    };
    let min = if args.fahrenheit {
        text_or(day.mintemp_f, "?"@)
    } else {
        text_or(day.mintemp_c, "?"@)
    };
    let up = if args.nerd {
        "\u{f0ce1}"@
    } else {
        "↑"@
    };
    let down = if args.nerd {
        "\u{f0d1f}"@
    } else {
        "↓"@
    };
    up + " "@ + html_escaped(max) + "° / "@ + down + " "@ + html_escaped(min) + "°\n"@
}

/// Sunrise, sunset and the phase of the moon of a day, where the report gives
/// its astronomy.
pub open spec fn astronomy_text(day: DayForecast, args: Args) -> Seq<char> {
    match day.astronomy {
        Some(a) => "🌅 "@ + html_escaped(
            ampm_time_text(astronomy_time(day, AstronomyField::Sunrise), args.ampm),
        ) + " / 🌇 "@ + html_escaped(
            ampm_time_text(astronomy_time(day, AstronomyField::Sunset), args.ampm),
        ) + "\n"@ + match a.moon_phase {
            Some(p) => "🌙 "@ + moon_icon(unicode_lowercase(p@)) + " "@ + html_escaped(p@) + "\n"@,
            None => Seq::empty(),
        },
        None => Seq::empty(),
    }
}

/// The date of a day written by the format asked for in the locale of the
/// language, where it reads and can be written, then the end of the bold
/// heading, which is closed in any case.
pub open spec fn heading_text(day: DayForecast, args: Args, lang: Lang) -> Seq<char> {
    match day_date(day) {
        Some((y, m, d)) => match localized_date(y, m, d, args.date_format@, locale_text(lang)) {
            Some(t) => t + "</b>\n"@,
            None => "</b>\n"@,
        },
        None => "</b>\n"@,
    }
}

/// The word for the first and second day shown.
pub open spec fn day_word(position: nat, lang: Lang) -> Seq<char> {
    if position == 0 {
        today_text(lang) + ", "@
    } else if position == 1 {
        tomorrow_text(lang) + ", "@
    } else {
        Seq::empty()
    }
}

/// The forecast of a day shown in place `position` (from 0).
pub open spec fn day_text(day: DayForecast, position: nat, args: Args, lang: Lang) -> Seq<char> {
    "\n<b>"@ + day_word(position, lang) + heading_text(day, args, lang) + temps_text(day, args)
        + astronomy_text(day, args) + hours_text(day, args, lang)
}

/// Whether a day is shown: its date reads and is not before `today`.
pub open spec fn is_upcoming(day: DayForecast, today: (i32, u32, u32)) -> bool {
    match day_date(day) {
        Some(d) => date_not_before(d, today),
        None => false,
    }
}

/// How many of `days` are shown.
pub open spec fn upcoming_count(days: Seq<DayForecast>, today: (i32, u32, u32)) -> nat
    decreases days.len(),
{
    if days.len() == 0 {
        0
    } else {
        upcoming_count(days.drop_last(), today) + if is_upcoming(days.last(), today) {
            1nat
        } else {
            0nat
        }
    }
}

/// The forecast of the days not before `today`, in the order of the report.
pub open spec fn forecast_text(
    days: Seq<DayForecast>,
    args: Args,
    lang: Lang,
    today: (i32, u32, u32),
) -> Seq<char>
    decreases days.len(),
{
    if days.len() == 0 {
        Seq::empty()
    } else {
        let prev = days.drop_last();
        forecast_text(prev, args, lang, today) + if is_upcoming(days.last(), today) {
            day_text(days.last(), upcoming_count(prev, today), args, lang)
        } else {
            Seq::empty()
        }
    }
}

/// The icon of an hour, as `hour_icon` says.
fn hour_icon_string(h: &HourlyForecast, nerd: bool, icons: &HashMap<i32, String>) -> (r: String)
    requires
        is_icon_map(icons@, nerd),
    ensures
        r@ == hour_icon(*h, nerd),
{
    let code = match &h.weather_code {
        Some(c) => parse_i32_chars(&chars_of(c.as_str())),
        None => None,
    };
    match code {
        Some(code) => icon_from_map(icons, code, nerd),
        None => "🌡️".to_owned(),
    }
}

/// The chances of an hour in brackets, as `chances_suffix` says.
fn chances_suffix_string(h: &HourlyForecast, lang: &Lang) -> (r: String)
    ensures
        r@ == chances_suffix(*h, *lang),
{
    let chances = format_chances(h, lang);
    let mut r = String::new();
    if !chances.as_str().is_empty() {
        r.append("(");
        r.append(chances.as_str());
        r.append(")");
    }
    r
}

/// The temperature of an hour, as `hour_temp` says.
fn hour_temp_str<'a>(h: &'a HourlyForecast, args: &Args) -> (r: &'a str)
    ensures
        r@ == hour_temp(*h, *args),
{
    if args.fahrenheit {
        str_or(&h.temp_f, "?")
    } else {
        str_or(&h.temp_c, "?")
    }
}

/// Appends one hour of the forecast.
fn push_hour(
    out: &mut String,
    h: &HourlyForecast,
    args: &Args,
    lang: &Lang,
    icons: &HashMap<i32, String>,
)
    requires
        is_icon_map(icons@, args.nerd),
    ensures
        final(out)@ == old(out)@ + hour_text(*h, *args, *lang),
{
    let ghost o = out@;
    let time = format_time(str_or(&h.time, ""), args.ampm);
    let temp = hour_temp_str(h, args);
    let icon = hour_icon_string(h, args.nerd, icons);
    let suffix = chances_suffix_string(h, lang);
    push_escaped(out, time.as_str());
    out.append(" ");
    push_escaped(out, temp);
    out.append("°");
    out.append(icon.as_str());
    out.append(" ");
    out.append(suffix.as_str());
    let ghost a = hour_time(*h, *args);
    let ghost b = html_escaped(hour_temp(*h, *args));
    let ghost c = hour_icon(*h, args.nerd);
    let ghost d = chances_suffix(*h, *lang);
    assert(out@ == o + a + " "@ + b + "°"@ + c + " "@ + d);
    assert(o + a + " "@ + b + "°"@ + c + " "@ + d =~= o + (a + " "@ + b + "°"@ + c + " "@ + d));
}

/// Appends the hourly forecast of a day.
fn push_hours(
    out: &mut String,
    day: &DayForecast,
    args: &Args,
    lang: &Lang,
    icons: &HashMap<i32, String>,
)
    requires
        is_icon_map(icons@, args.nerd),
    ensures
        final(out)@ == old(out)@ + hours_text(*day, *args, *lang),
{
    let ghost o = out@;
    if args.hide_conditions {
        return;
    }
    match &day.hourly {
        Some(hs) => {
            out.append("\n<i>");
            let n: usize = if hs.len() < MAX_HOURS_SHOWN {
                hs.len()
            } else {
                MAX_HOURS_SHOWN
            };
            let ghost start = out@;
            let mut i: usize = 0;
            while i < n
                invariant
                    n <= hs.len(),
                    i <= n,
                    is_icon_map(icons@, args.nerd),
                    out@ == start + hours_seq_text(hs@.take(i as int), *args, *lang),
                decreases n - i,
            {
                let ghost before = out@;
                push_hour(out, &hs[i], args, lang, icons);
                assert(hs@.take(i + 1).drop_last() =~= hs@.take(i as int));
                assert(out@ =~= start + hours_seq_text(hs@.take(i + 1), *args, *lang));
                i = i + 1;
            }
            out.append("</i>\n");
            assert(out@ =~= o + hours_text(*day, *args, *lang));
        },
        None => {},
    }
}

/// Appends the highest and lowest temperature of a day.
fn push_temps(out: &mut String, day: &DayForecast, args: &Args)
    ensures
        final(out)@ == old(out)@ + temps_text(*day, *args),
{
    let ghost o = out@;
    let (max, min) = if args.fahrenheit {
        (str_or(&day.maxtemp_f, "?"), str_or(&day.mintemp_f, "?"))
    } else {
        (str_or(&day.maxtemp_c, "?"), str_or(&day.mintemp_c, "?"))
    };
    let up = if args.nerd {
        "\u{f0ce1}"
    } else {
        "↑"
    };
    let down = if args.nerd {
        "\u{f0d1f}"
    } else {
        "↓"
    };
    out.append(up);
    out.append(" ");
    push_escaped(out, max);
    out.append("° / ");
    out.append(down);
    out.append(" ");
    push_escaped(out, min);
    out.append("°\n");
    assert(out@ =~= o + temps_text(*day, *args));
}

/// Appends sunrise, sunset and the phase of the moon of a day.
fn push_astronomy(out: &mut String, day: &DayForecast, args: &Args)
    ensures
        final(out)@ == old(out)@ + astronomy_text(*day, *args),
{
    let ghost o = out@;
    match &day.astronomy {
        Some(a) => {
            let sunrise = format_ampm_time(day, AstronomyField::Sunrise, args.ampm);
            let sunset = format_ampm_time(day, AstronomyField::Sunset, args.ampm);
            out.append("🌅 ");
            push_escaped(out, sunrise.as_str());
            out.append(" / 🌇 ");
            push_escaped(out, sunset.as_str());
            out.append("\n");
            match &a.moon_phase {
                Some(p) => {
                    let icon = format_moon_phase_icon(p.as_str(), args.nerd);
                    out.append("🌙 ");
                    out.append(icon);
                    out.append(" ");
                    push_escaped(out, p.as_str());
                    out.append("\n");
                },
                None => {},
            }
            assert(out@ =~= o + astronomy_text(*day, *args));
        },
        None => {},
    }
}

/// The word for the day shown in place `position`, as `day_word` says.
fn day_word_string(position: usize, lang: &Lang) -> (r: String)
    ensures
        r@ == day_word(position as nat, *lang),
{
    let mut r = String::new();
    if position == 0 {
        r.append(lang.today());
        r.append(", ");
    } else if position == 1 {
        r.append(lang.tomorrow());
        r.append(", ");
    }
    r
}

/// The dated end of the heading of a day, as `heading_text` says.
fn heading_string(day: &DayForecast, args: &Args, lang: &Lang) -> (r: String)
    ensures
        r@ == heading_text(*day, *args, *lang),
{
    let mut r = String::new();
    match localized_day_heading(day, args.date_format.as_str(), lang.locale_str()) {
        Some(t) => {
            r.append(t.as_str());
            r.append("</b>\n");
        },
        None => {
            r.append("</b>\n");
        },
    }
    r
}

/// Appends the forecast of a day shown in place `position`.
fn push_day(
    out: &mut String,
    day: &DayForecast,
    position: usize,
    args: &Args,
    lang: &Lang,
    icons: &HashMap<i32, String>,
)
    requires
        is_icon_map(icons@, args.nerd),
    ensures
        final(out)@ == old(out)@ + day_text(*day, position as nat, *args, *lang),
{
    let ghost o = out@;
    let word = day_word_string(position, lang);
    let heading = heading_string(day, args, lang);
    out.append("\n<b>");
    out.append(word.as_str());
    out.append(heading.as_str());
    push_temps(out, day, args);
    push_astronomy(out, day, args);
    push_hours(out, day, args, lang, icons);
    let ghost a = day_word(position as nat, *lang);
    let ghost b = heading_text(*day, *args, *lang);
    let ghost c = temps_text(*day, *args);
    let ghost d = astronomy_text(*day, *args);
    let ghost e = hours_text(*day, *args, *lang);
    assert(out@ == o + "\n<b>"@ + a + b + c + d + e);
    assert(o + "\n<b>"@ + a + b + c + d + e =~= o + ("\n<b>"@ + a + b + c + d + e));
}

/// Appends the forecast of the days of `days` not before `today`, the first
/// of them headed by the word for today and the second by that for tomorrow.
pub fn append_forecast_for_date(
    tooltip: &mut String,
    days: &Vec<DayForecast>,
    args: &Args,
    lang: &Lang,
    today: (i32, u32, u32),
)
    ensures
        final(tooltip)@ == old(tooltip)@ + forecast_text(days@, *args, *lang, today),
{
    let ghost o = tooltip@;
    let icons = if args.nerd {
        get_weather_codes_nerd_map()
    } else {
        get_weather_codes_map()
    };
    let mut shown: usize = 0;
    let mut j: usize = 0;
    assert(days@.take(0) =~= Seq::<DayForecast>::empty());
    while j < days.len()
        invariant
            j <= days.len(),
            shown <= j,
            shown == upcoming_count(days@.take(j as int), today),
            is_icon_map(icons@, args.nerd),
            tooltip@ == o + forecast_text(days@.take(j as int), *args, *lang, today),
        decreases days.len() - j,
    {
        let ghost before = tooltip@;
        let day = &days[j];
        assert(days@.take(j + 1).drop_last() =~= days@.take(j as int));
        assert(days@.take(j + 1).last() == days@[j as int]);
        let upcoming = match read_day_date(day) {
            Some(d) => is_not_before(d, today),
            None => false,
        };
        if upcoming {
            push_day(tooltip, day, shown, args, lang, &icons);
            shown = shown + 1;
        }
        assert(tooltip@ =~= o + forecast_text(days@.take(j + 1), *args, *lang, today));
        j = j + 1;
    }
    assert(days@.take(days.len() as int) =~= days@);
}

} // verus!

verus! {

/// The message for a report without a forecast.
pub open spec fn forecast_missing_message() -> Seq<char> {
    "Dados de previsão ausentes"@
}

/// Appends the forecast of the days from today on (today by the local clock).
/// Fails, leaving the tooltip as it was, where the report has no forecast.
pub fn append_forecast_to_tooltip(
    tooltip: &mut String,
    weather: &WeatherData,
    args: &Args,
    lang: &Lang,
) -> (r: Result<(), AppError>)
    ensures
        match r {
            Ok(_) => weather.weather matches Some(days) && exists|today: (i32, u32, u32)|
                #[trigger] is_calendar_date(today) && final(tooltip)@ == old(tooltip)@
                    + forecast_text(days@, *args, *lang, today),
            Err(e) => {
                &&& weather.weather is None
                &&& final(tooltip)@ == old(tooltip)@
                &&& e matches AppError::ParseError(m) && m@ == forecast_missing_message()
            },
        },
{
    match &weather.weather {
        Some(days) => {
            let today = local_today();
            append_forecast_for_date(tooltip, days, args, lang, today);
            assert(is_calendar_date(today));
            Ok(())
        },
        None => Err(AppError::ParseError("Dados de previsão ausentes".to_owned())),
    }
}

/// The temperature now in the unit asked for.
pub open spec fn current_temp(cc: CurrentCondition, args: Args) -> Seq<char> {
    if args.fahrenheit {
        text_or(cc.temp_f, "?"@)
    } else {
        text_or(cc.temp_c, "?"@)
    }
}

/// The felt temperature now in the unit asked for.
pub open spec fn current_feels_like(cc: CurrentCondition, args: Args) -> Seq<char> {
    if args.fahrenheit {
        text_or(cc.feels_like_f, "?"@)
    } else {
        text_or(cc.feels_like_c, "?"@)
    }
}

/// The wind speed now in the unit asked for.
pub open spec fn current_wind(cc: CurrentCondition, args: Args) -> Seq<char> {
    if args.mph {
        text_or(cc.windspeed_miles, "?"@)
    } else {
        text_or(cc.windspeed_kmph, "?"@)
    }
}

/// The unit of the wind speed.
pub open spec fn wind_unit(args: Args) -> Seq<char> {
    if args.mph {
        "mph"@
    } else {
        "km/h"@
    }
}

/// The line of the time of the observation, where asked for and where the
/// report gives a time that reads on a 12-hour dial.
pub open spec fn observation_line(cc: CurrentCondition, args: Args, lang: Lang) -> Seq<char> {
    if args.observation_time {
        match cc.observation_time {
            Some(t) => match parsed_time(t@, twelve_hour_format()) {
                Some(_) => observation_time_text(lang) + ": "@ + html_escaped(
                    ampm_time_text(t@, args.ampm),
                ) + "\n"@,
                None => Seq::empty(),
            },
            None => Seq::empty(),
        }
    } else {
        Seq::empty()
    }
}

/// The weather now: description and temperature in bold, then the felt
/// temperature, the wind, the humidity, the place and, where asked for, the
/// time of the observation, a line each.
pub open spec fn current_text(
    cc: CurrentCondition,
    area: NearestArea,
    args: Args,
    lang: Lang,
) -> Seq<char> {
    "<b>"@ + html_escaped(text_or(cc.weather_desc, "Unknown"@)) + "</b> "@ + html_escaped(
        current_temp(cc, args),
    ) + "°\n"@ + feels_like_text(lang) + ": "@ + html_escaped(current_feels_like(cc, args))
        + "°\n"@ + wind_text(lang) + ": "@ + html_escaped(current_wind(cc, args)) + " "@
        + wind_unit(args) + "\n"@ + humidity_text(lang) + ": "@ + html_escaped(
        text_or(cc.humidity, "?"@),
    ) + "%\n"@ + location_label_text(lang) + ": "@ + html_escaped(location_text(area)) + "\n"@
        + observation_line(cc, args, lang)
}

/// The line of the time of the observation, as `observation_line` says.
fn observation_line_string(cc: &CurrentCondition, args: &Args, lang: &Lang) -> (r: String)
    ensures
        r@ == observation_line(*cc, *args, *lang),
{
    let mut r = String::new();
    if args.observation_time {
        match &cc.observation_time {
            Some(t) => {
                let shown = format_clock_time(t.as_str(), args.ampm);
                if reads_as_clock_time(t.as_str()) {
                    r.append(lang.observation_time());
                    r.append(": ");
                    push_escaped(&mut r, shown.as_str());
                    r.append("\n");
                }
            },
            None => {},
        }
    }
    r
}

/// The weather now, as `current_text` says.
fn current_string(cc: &CurrentCondition, area: &NearestArea, args: &Args, lang: &Lang) -> (r:
    String)
    ensures
        r@ == current_text(*cc, *area, *args, *lang),
{
    let desc = match lang.weather_desc_value(cc) {
        Some(d) => d,
        None => "Unknown".to_owned(),
    };
    let temp = if args.fahrenheit {
        str_or(&cc.temp_f, "?")
    } else {
        str_or(&cc.temp_c, "?")
    };
    let feels = if args.fahrenheit {
        str_or(&cc.feels_like_f, "?")
    } else {
        str_or(&cc.feels_like_c, "?")
    };
    let wind = if args.mph {
        str_or(&cc.windspeed_miles, "?")
    } else {
        str_or(&cc.windspeed_kmph, "?")
    };
    let unit = if args.mph {
        "mph"
    } else {
        "km/h"
    };
    let location = build_location_string(area);
    let observation = observation_line_string(cc, args, lang);
    let mut r = String::new();
    r.append("<b>");
    push_escaped(&mut r, desc.as_str());
    r.append("</b> ");
    push_escaped(&mut r, temp);
    r.append("°\n");
    r.append(lang.feels_like());
    r.append(": ");
    push_escaped(&mut r, feels);
    r.append("°\n");
    r.append(lang.wind());
    r.append(": ");
    push_escaped(&mut r, wind);
    r.append(" ");
    r.append(unit);
    r.append("\n");
    r.append(lang.humidity());
    r.append(": ");
    push_escaped(&mut r, str_or(&cc.humidity, "?"));
    r.append("%\n");
    r.append(lang.location());
    r.append(": ");
    push_escaped(&mut r, location.as_str());
    r.append("\n");
    r.append(observation.as_str());
    r
}

/// The tooltip: the weather now, then the forecast from today on. Fails where
/// the report has no forecast.
pub fn generate_tooltip(
    weather: &WeatherData,
    current_condition: &CurrentCondition,
    nearest_area: &NearestArea,
    args: &Args,
    lang: &Lang,
) -> (r: Result<String, AppError>)
    ensures
        match r {
            Ok(t) => weather.weather matches Some(days) && exists|today: (i32, u32, u32)|
                #[trigger] is_calendar_date(today) && t@ == current_text(
                    *current_condition,
                    *nearest_area,
                    *args,
                    *lang,
                ) + forecast_text(days@, *args, *lang, today),
            Err(e) => {
                &&& weather.weather is None
                &&& e matches AppError::ParseError(m) && m@ == forecast_missing_message()
            },
        },
{
    let mut tooltip = current_string(current_condition, nearest_area, args, lang);
    match append_forecast_to_tooltip(&mut tooltip, weather, args, lang) {
        Ok(()) => Ok(tooltip),
        Err(e) => Err(e),
    }
}

/// The hour `h` with its Celsius temperature replaced by `c`.
pub open spec fn with_temp_c(h: HourlyForecast, c: Option<String>) -> HourlyForecast {
    HourlyForecast {
        time: h.time,
        temp_c: c,
        temp_f: h.temp_f,
        weather_code: h.weather_code,
        chance_of_rain: h.chance_of_rain,
        chance_of_snow: h.chance_of_snow,
    }
}

/// The hour `h` with its Fahrenheit temperature replaced by `f`.
pub open spec fn with_temp_f(h: HourlyForecast, f: Option<String>) -> HourlyForecast {
    HourlyForecast {
        time: h.time,
        temp_c: h.temp_c,
        temp_f: f,
        weather_code: h.weather_code,
        chance_of_rain: h.chance_of_rain,
        chance_of_snow: h.chance_of_snow,
    }
}

/// Law: an hour of the forecast shows its temperature in the unit that
/// `fahrenheit` selects, the unit of the day's highest and lowest: its
/// `temp_F` with the flag and its `temp_C` without, escaped, right after its
/// time; the temperature in the other unit never changes the line.
pub proof fn law_hour_temperature_in_chosen_unit(
    h: HourlyForecast,
    args: Args,
    lang: Lang,
    other: Option<String>,
)
    ensures
        args.fahrenheit ==> hour_text(h, args, lang) == hour_time(h, args) + " "@ + html_escaped(
            text_or(h.temp_f, "?"@),
        ) + "°"@ + hour_icon(h, args.nerd) + " "@ + chances_suffix(h, lang),
        !args.fahrenheit ==> hour_text(h, args, lang) == hour_time(h, args) + " "@ + html_escaped(
            text_or(h.temp_c, "?"@),
        ) + "°"@ + hour_icon(h, args.nerd) + " "@ + chances_suffix(h, lang),
        args.fahrenheit ==> hour_text(with_temp_c(h, other), args, lang) == hour_text(h, args, lang),
        !args.fahrenheit ==> hour_text(with_temp_f(h, other), args, lang) == hour_text(h, args, lang),
        args.fahrenheit ==> hour_temp(h, args) == text_or(h.temp_f, "?"@),
        !args.fahrenheit ==> hour_temp(h, args) == text_or(h.temp_c, "?"@),
{
    let hc = with_temp_c(h, other);
    let hf = with_temp_f(h, other);
    assert(chances_text(hc, lang) == chances_text(h, lang));
    assert(chances_text(hf, lang) == chances_text(h, lang));
}

/// The present conditions `cc` with the wind in km/h replaced by `k`.
pub open spec fn with_wind_kmph(cc: CurrentCondition, k: Option<String>) -> CurrentCondition {
    CurrentCondition {
        temp_c: cc.temp_c,
        temp_f: cc.temp_f,
        feels_like_c: cc.feels_like_c,
        feels_like_f: cc.feels_like_f,
        humidity: cc.humidity,
        windspeed_kmph: k,
        windspeed_miles: cc.windspeed_miles,
        weather_code: cc.weather_code,
        observation_time: cc.observation_time,
        weather_desc: cc.weather_desc,
    }
}

/// The present conditions `cc` with the wind in mph replaced by `m`.
pub open spec fn with_wind_miles(cc: CurrentCondition, m: Option<String>) -> CurrentCondition {
    CurrentCondition {
        temp_c: cc.temp_c,
        temp_f: cc.temp_f,
        feels_like_c: cc.feels_like_c,
        feels_like_f: cc.feels_like_f,
        humidity: cc.humidity,
        windspeed_kmph: cc.windspeed_kmph,
        windspeed_miles: m,
        weather_code: cc.weather_code,
        observation_time: cc.observation_time,
        weather_desc: cc.weather_desc,
    }
}

/// Law: the wind of the tooltip is shown in the unit written after it: with
/// `mph` the report's `windspeedMiles` followed by ` mph`, without it its
/// `windspeedKmph` followed by ` km/h`; the speed in the other unit never
/// changes the tooltip.
pub proof fn law_wind_in_its_stated_unit(
    cc: CurrentCondition,
    area: NearestArea,
    args: Args,
    lang: Lang,
    other: Option<String>,
)
    ensures
        args.mph ==> current_wind(cc, args) == text_or(cc.windspeed_miles, "?"@) && wind_unit(args)
            == "mph"@,
        !args.mph ==> current_wind(cc, args) == text_or(cc.windspeed_kmph, "?"@) && wind_unit(args)
            == "km/h"@,
        args.mph ==> current_text(with_wind_kmph(cc, other), area, args, lang) == current_text(
            cc,
            area,
            args,
            lang,
        ),
        !args.mph ==> current_text(with_wind_miles(cc, other), area, args, lang) == current_text(
            cc,
            area,
            args,
            lang,
        ),
{
    assert(observation_line(with_wind_kmph(cc, other), args, lang) == observation_line(cc, args, lang));
    assert(observation_line(with_wind_miles(cc, other), args, lang) == observation_line(cc, args, lang));
}

/// Law: the highest and lowest temperatures of a day are shown in the unit
/// that `fahrenheit` selects (`maxtempF`/`mintempF` with it,
/// `maxtempC`/`mintempC` without), escaped, the highest after the up arrow and
/// the lowest after the down arrow.
pub proof fn law_day_temperatures_in_chosen_unit(day: DayForecast, args: Args)
    ensures
        temps_text(day, args) == (if args.nerd {
            "\u{f0ce1}"@
        } else {
            "↑"@
        }) + " "@ + html_escaped(
            text_or(if args.fahrenheit { day.maxtemp_f } else { day.maxtemp_c }, "?"@),
        ) + "° / "@ + (if args.nerd {
            "\u{f0d1f}"@
        } else {
            "↓"@
        }) + " "@ + html_escaped(
            text_or(if args.fahrenheit { day.mintemp_f } else { day.mintemp_c }, "?"@),
        ) + "°\n"@,
{
}

/// Law: the temperature and the felt temperature now are shown in the unit
/// that `fahrenheit` selects: `temp_F` and `FeelsLikeF` with it, `temp_C` and
/// `FeelsLikeC` without.
pub proof fn law_current_temperatures_in_chosen_unit(cc: CurrentCondition, args: Args)
    ensures
        current_temp(cc, args) == text_or(if args.fahrenheit { cc.temp_f } else { cc.temp_c }, "?"@),
        current_feels_like(cc, args) == text_or(
            if args.fahrenheit { cc.feels_like_f } else { cc.feels_like_c },
            "?"@,
        ),
{
}

} // verus!
