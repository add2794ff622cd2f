//! The text of the bar and the tooltip, built from a weather report.
use vstd::prelude::*;
use vstd::string::StringExecFns;
use crate::html::{html_escaped, escape_html};
use crate::lang::{Lang, chance_of_rain_text, chance_of_snow_text};
use crate::model::{Args, CurrentCondition, HourlyForecast, NearestArea, str_or, text_or};
use crate::text::{replaced, replace_all, str_eq};

verus! {

/// `acc` with `part` added: nothing is added for an empty part, and parts are
/// separated by `, `.
pub open spec fn join_part(acc: Seq<char>, part: Seq<char>) -> Seq<char> {
    if part.len() == 0 {
        acc
    } else if acc.len() == 0 {
        part
    } else {
        acc + ", "@ + part
    }
}

/// Adds `part` to the list `acc` as `join_part` says.
fn push_part(acc: &mut String, part: &str)
    ensures
        final(acc)@ == join_part(old(acc)@, part@),
{
    if part.is_empty() {
    } else if acc.as_str().is_empty() {
        acc.append(part);
    } else {
        acc.append(", ");
        acc.append(part);
    }
}

/// The place of the report: its area, region and country, those that are
/// given, separated by `, `.
pub open spec fn location_text(area: NearestArea) -> Seq<char> {
    join_part(
        join_part(join_part(Seq::empty(), text_or(area.area_name, ""@)), text_or(area.region, ""@)),
        text_or(area.country, ""@),
    )
}

/// The place of the report, as `location_text` says.
pub fn build_location_string(nearest_area: &NearestArea) -> (r: String)
    ensures
        r@ == location_text(*nearest_area),
{
    let mut r = String::new();
    push_part(&mut r, str_or(&nearest_area.area_name, ""));
    push_part(&mut r, str_or(&nearest_area.region, ""));
    push_part(&mut r, str_or(&nearest_area.country, ""));
    r
}

/// The chance `value` labelled `label`, where it is given and is neither `0`
/// nor empty; the value is escaped, as it comes from the report.
pub open spec fn chance_text(label: Seq<char>, value: Option<String>) -> Seq<char> {
    match value {
        Some(v) => if v@ != "0"@ && v@.len() > 0 {
            label + ": "@ + html_escaped(v@) + "%"@
        } else {
            Seq::empty()
        },
        None => Seq::empty(),
    }
}

/// The chances of rain and of snow of an hour, those that are given and are
/// not zero, separated by `, `.
pub open spec fn chances_text(hour: HourlyForecast, lang: Lang) -> Seq<char> {
    join_part(
        join_part(Seq::empty(), chance_text(chance_of_rain_text(lang), hour.chance_of_rain)),
        chance_text(chance_of_snow_text(lang), hour.chance_of_snow),
    )
}

/// The chance `value` labelled `label`, as `chance_text` says.
fn chance_entry(label: &str, value: &Option<String>) -> (r: String)
    ensures
        r@ == chance_text(label@, *value),
{
    let mut r = String::new();
    match value {
        Some(v) => {
            if !str_eq(v.as_str(), "0") && !v.as_str().is_empty() {
                r.append(label);
                r.append(": ");
                let e = escape_html(v.as_str());
                r.append(e.as_str());
                r.append("%");
            }
        },
        None => {},
    }
    r
}

/// The chances of rain and snow of an hour, as `chances_text` says.
pub fn format_chances(hour_data: &HourlyForecast, lang: &Lang) -> (r: String)
    ensures
        r@ == chances_text(*hour_data, *lang),
{
    let mut r = String::new();
    let rain = chance_entry(lang.chance_of_rain(), &hour_data.chance_of_rain);
    push_part(&mut r, rain.as_str());
    let snow = chance_entry(lang.chance_of_snow(), &hour_data.chance_of_snow);
    push_part(&mut r, snow.as_str());
    r
}

/// A custom text for the bar with its placeholders replaced, one after the
/// other, by the values of the report (`?` where one is not given).
pub open spec fn indicator_text(
    expr: Seq<char>,
    cc: CurrentCondition,
    area: NearestArea,
    icon: Seq<char>,
) -> Seq<char> {
    let s = replaced(expr, "{weather_icon}"@, icon);
    let s = replaced(s, "{temp_C}"@, text_or(cc.temp_c, "?"@));
    let s = replaced(s, "{temp_F}"@, text_or(cc.temp_f, "?"@));
    let s = replaced(s, "{feels_like_C}"@, text_or(cc.feels_like_c, "?"@));
    let s = replaced(s, "{feels_like_F}"@, text_or(cc.feels_like_f, "?"@));
    let s = replaced(s, "{humidity}"@, text_or(cc.humidity, "?"@));
    let s = replaced(s, "{wind_kmph}"@, text_or(cc.windspeed_kmph, "?"@));
    let s = replaced(s, "{wind_mph}"@, text_or(cc.windspeed_miles, "?"@));
    let s = replaced(s, "{area}"@, text_or(area.area_name, "?"@));
    let s = replaced(s, "{region}"@, text_or(area.region, "?"@));
    replaced(s, "{country}"@, text_or(area.country, "?"@))
}

/// Replaces the placeholders of a custom text for the bar, as
/// `indicator_text` says.
pub fn format_indicator(
    current_condition: &CurrentCondition,
    nearest_area: &NearestArea,
    expression: String,
    weather_icon: &str,
) -> (r: String)
    ensures
        r@ == indicator_text(expression@, *current_condition, *nearest_area, weather_icon@),
{
    proof {
        reveal_strlit("{weather_icon}");
        reveal_strlit("{temp_C}");
        reveal_strlit("{temp_F}");
        reveal_strlit("{feels_like_C}");
        reveal_strlit("{feels_like_F}");
        reveal_strlit("{humidity}");
        reveal_strlit("{wind_kmph}");
        reveal_strlit("{wind_mph}");
        reveal_strlit("{area}");
        reveal_strlit("{region}");
        reveal_strlit("{country}");
    }
    let cc = current_condition;
    let na = nearest_area;
    let r = replace_all(expression.as_str(), "{weather_icon}", weather_icon);
    let r = replace_all(r.as_str(), "{temp_C}", str_or(&cc.temp_c, "?"));
    let r = replace_all(r.as_str(), "{temp_F}", str_or(&cc.temp_f, "?"));
    let r = replace_all(r.as_str(), "{feels_like_C}", str_or(&cc.feels_like_c, "?"));
    let r = replace_all(r.as_str(), "{feels_like_F}", str_or(&cc.feels_like_f, "?"));
    let r = replace_all(r.as_str(), "{humidity}", str_or(&cc.humidity, "?"));
    let r = replace_all(r.as_str(), "{wind_kmph}", str_or(&cc.windspeed_kmph, "?"));
    let r = replace_all(r.as_str(), "{wind_mph}", str_or(&cc.windspeed_miles, "?"));
    let r = replace_all(r.as_str(), "{area}", str_or(&na.area_name, "?"));
    let r = replace_all(r.as_str(), "{region}", str_or(&na.region, "?"));
    replace_all(r.as_str(), "{country}", str_or(&na.country, "?"))
}

/// The value shown in the bar for the indicator asked for: the temperature in
/// Fahrenheit where `temp_C` is asked for with `fahrenheit`, the named value
/// for `temp_C`, `temp_F`, `humidity`, `FeelsLikeC` and `FeelsLikeF`, the
/// temperature in Celsius for any other name; `?` where the report gives none.
pub open spec fn indicator_value(cc: CurrentCondition, args: Args) -> Seq<char> {
    let name = args.main_indicator@;
    if args.fahrenheit && name == "temp_C"@ {
        text_or(cc.temp_f, "?"@)
    } else if name == "temp_C"@ {
        text_or(cc.temp_c, "?"@)
    } else if name == "temp_F"@ {
        text_or(cc.temp_f, "?"@)
    } else if name == "humidity"@ {
        text_or(cc.humidity, "?"@)
    } else if name == "FeelsLikeC"@ {
        text_or(cc.feels_like_c, "?"@)
    } else if name == "FeelsLikeF"@ {
        text_or(cc.feels_like_f, "?"@)
    } else {
        text_or(cc.temp_c, "?"@)
    }
}

/// The text of the bar: the custom text with its placeholders replaced where
/// one is given, otherwise the icon and the value of the indicator, one above
/// the other where `vertical_view`.
pub open spec fn main_text(
    cc: CurrentCondition,
    area: NearestArea,
    icon: Seq<char>,
    args: Args,
) -> Seq<char> {
    match args.custom_indicator {
        Some(e) => indicator_text(e@, cc, area, icon),
        None => icon + (if args.vertical_view {
            "\n"@
        } else {
            " "@
        }) + indicator_value(cc, args),
    }
}

/// The value shown in the bar, as `indicator_value` says.
fn main_indicator_value<'a>(cc: &'a CurrentCondition, args: &Args) -> (r: &'a str)
    ensures
        r@ == indicator_value(*cc, *args),
{
    let name = args.main_indicator.as_str();
    if args.fahrenheit && str_eq(name, "temp_C") {
        str_or(&cc.temp_f, "?")
    } else if str_eq(name, "temp_C") {
        str_or(&cc.temp_c, "?")
    } else if str_eq(name, "temp_F") {
        str_or(&cc.temp_f, "?")
    } else if str_eq(name, "humidity") {
        str_or(&cc.humidity, "?")
    } else if str_eq(name, "FeelsLikeC") {
        str_or(&cc.feels_like_c, "?")
    } else if str_eq(name, "FeelsLikeF") {
        str_or(&cc.feels_like_f, "?")
    } else {
        str_or(&cc.temp_c, "?")
    }
}

/// The text of the bar, as `main_text` says.
pub fn generate_main_text(
    current_condition: &CurrentCondition,
    nearest_area: &NearestArea,
    weather_icon: &str,
    args: &Args,
) -> (r: String)
    ensures
        r@ == main_text(*current_condition, *nearest_area, weather_icon@, *args),
{
    match &args.custom_indicator {
        Some(expression) => {
            return format_indicator(current_condition, nearest_area, expression.clone(), weather_icon);
        },
        None => {},
    }
    let value = main_indicator_value(current_condition, args);
    let mut r = String::new();
    r.append(weather_icon);
    if args.vertical_view {
        r.append("\n");
    } else {
        r.append(" ");
    }
    r.append(value);
    r
}

/// The style class of the bar: always `wttrbar`.
pub fn generate_css_class(_current_condition: &CurrentCondition, _lang: &Lang) -> (r: String)
    ensures
        r@ == "wttrbar"@,
{
    "wttrbar".to_owned()
}

/// Law: without a custom text, the bar shows the icon, then (below it where
/// `vertical_view`, beside it otherwise) the report field of the same name as
/// the indicator asked for: `temp_F`, `humidity`, `FeelsLikeC` and
/// `FeelsLikeF` each their own field, `temp_C` its own field, or `temp_F`
/// with `fahrenheit`; any other name shows `temp_C`.
pub proof fn law_indicator_shows_its_own_field(
    cc: CurrentCondition,
    area: NearestArea,
    icon: Seq<char>,
    args: Args,
)
    ensures
        args.custom_indicator is None ==> main_text(cc, area, icon, args) == icon + (if args.vertical_view {
            "\n"@
        } else {
            " "@
        }) + indicator_value(cc, args),
        args.main_indicator@ == "temp_C"@ && !args.fahrenheit ==> indicator_value(cc, args)
            == text_or(cc.temp_c, "?"@),
        args.main_indicator@ == "temp_C"@ && args.fahrenheit ==> indicator_value(cc, args)
            == text_or(cc.temp_f, "?"@),
        args.main_indicator@ == "temp_F"@ ==> indicator_value(cc, args) == text_or(cc.temp_f, "?"@),
        args.main_indicator@ == "humidity"@ ==> indicator_value(cc, args) == text_or(
            cc.humidity,
            "?"@,
        ),
        args.main_indicator@ == "FeelsLikeC"@ ==> indicator_value(cc, args) == text_or(
            cc.feels_like_c,
            "?"@,
        ),
        args.main_indicator@ == "FeelsLikeF"@ ==> indicator_value(cc, args) == text_or(
            cc.feels_like_f,
            "?"@,
        ),
        !(args.main_indicator@ == "temp_C"@ || args.main_indicator@ == "temp_F"@
            || args.main_indicator@ == "humidity"@ || args.main_indicator@ == "FeelsLikeC"@
            || args.main_indicator@ == "FeelsLikeF"@) ==> indicator_value(cc, args) == text_or(
            cc.temp_c,
            "?"@,
        ),
{
    reveal_strlit("temp_C");
    reveal_strlit("temp_F");
    reveal_strlit("humidity");
    reveal_strlit("FeelsLikeC");
    reveal_strlit("FeelsLikeF");
    assert("temp_C"@[5] != "temp_F"@[5]);
    assert("FeelsLikeC"@[9] != "FeelsLikeF"@[9]);
    assert("temp_C"@.len() != "humidity"@.len());
    assert("temp_C"@.len() != "FeelsLikeC"@.len());
    assert("temp_C"@.len() != "FeelsLikeF"@.len());
    assert("temp_F"@.len() != "humidity"@.len());
    assert("temp_F"@.len() != "FeelsLikeC"@.len());
    assert("temp_F"@.len() != "FeelsLikeF"@.len());
    assert("humidity"@.len() != "FeelsLikeC"@.len());
    assert("humidity"@.len() != "FeelsLikeF"@.len());
}

} // verus!
