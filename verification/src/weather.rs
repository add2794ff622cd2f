//! From a weather report to what the status bar shows.
use vstd::prelude::*;
use crate::clock::is_calendar_date;
use crate::icons::{get_weather_icon, weather_icon_text};
use crate::lang::Lang;
use crate::model::{AppError, Args, CurrentCondition, WeatherData, WeatherOutput};
use crate::numeric::{parse_i32_chars, parse_i32_text};
use crate::report::{generate_css_class, generate_main_text, main_text};
use crate::text::chars_of;
use crate::tooltip::{current_text, forecast_text, generate_tooltip};

verus! {

/// The weather code of the present conditions, where it reads as a number.
pub open spec fn weather_code_of(cc: CurrentCondition) -> Option<i32> {
    match cc.weather_code {
        Some(c) => parse_i32_text(c@),
        None => None,
    }
}

/// What is missing from a report for the bar to show it, in the order it is
/// looked for: the present conditions, the place, a weather code that reads as
/// a number, the forecast.
pub open spec fn report_problem(weather: WeatherData) -> Option<Seq<char>> {
    match weather.current_condition {
        None => Some("Dados atuais ausentes"@),
        Some(cc) => match weather.nearest_area {
            None => Some("Dados de localização ausentes"@),
            Some(_) => match weather_code_of(cc) {
                None => Some("Código climático inválido"@),
                Some(_) => match weather.weather {
                    None => Some("Dados de previsão ausentes"@),
                    Some(_) => None,
                },
            },
        },
    }
}

/// Whether `out` is what the bar shows for `weather` on the day `today`.
pub open spec fn shown_for(
    out: WeatherOutput,
    weather: WeatherData,
    args: Args,
    lang: Lang,
    today: (i32, u32, u32),
) -> bool {
    match (weather.current_condition, weather.nearest_area, weather.weather) {
        (Some(cc), Some(area), Some(days)) => match weather_code_of(cc) {
            Some(code) => {
                &&& out.text@ == main_text(cc, area, weather_icon_text(code, args.nerd), args)
                &&& out.tooltip@ == current_text(cc, area, args, lang) + forecast_text(
                    days@,
                    args,
                    lang,
                    today,
                )
                &&& out.class@ == "wttrbar"@
            },
            None => false,
        },
        _ => false,
    }
}

/// The text, tooltip and class of the bar for a report. Fails with the first
/// thing the report lacks, as `report_problem` says.
pub fn process_weather_data(weather: &WeatherData, args: &Args, lang: &Lang) -> (r: Result<
    WeatherOutput,
    AppError,
>)
    ensures
        match r {
            Ok(out) => {
                &&& report_problem(*weather) is None
                &&& exists|today: (i32, u32, u32)|
                    #[trigger] is_calendar_date(today) && shown_for(out, *weather, *args, *lang, today)
            },
            Err(e) => e matches AppError::ParseError(m) && report_problem(*weather) == Some(m@),
        },
{
    let mut output = WeatherOutput::new();
    let current_condition = match &weather.current_condition {
        Some(cc) => cc,
        None => {
            return Err(AppError::ParseError("Dados atuais ausentes".to_owned()));
        },
    };
    let nearest_area = match &weather.nearest_area {
        Some(a) => a,
        None => {
            return Err(AppError::ParseError("Dados de localização ausentes".to_owned()));
        },
    };
    let weather_code = match &current_condition.weather_code {
        Some(c) => parse_i32_chars(&chars_of(c.as_str())),
        None => None,
    };
    let weather_code = match weather_code {
        Some(code) => code,
        None => {
            return Err(AppError::ParseError("Código climático inválido".to_owned()));
        },
    };
    let weather_icon = get_weather_icon(weather_code, args.nerd);
    output.text = generate_main_text(current_condition, nearest_area, weather_icon.as_str(), args);
    output.tooltip = match generate_tooltip(weather, current_condition, nearest_area, args, lang) {
        Ok(t) => t,
        Err(e) => {
            return Err(e);
        },
    };
    output.class = generate_css_class(current_condition, lang);
    Ok(output)
}

} // verus!
