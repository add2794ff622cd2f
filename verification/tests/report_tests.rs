use chrono::Local;
use wttrbar::lang::Lang;
use wttrbar::model::{AppError, Args, Astronomy, CurrentCondition, DayForecast, HourlyForecast,
    NearestArea, WeatherData};
use wttrbar::report::{build_location_string, format_chances, format_indicator, generate_css_class,
    generate_main_text};
use wttrbar::tooltip::{append_forecast_for_date, generate_tooltip};
use wttrbar::weather::process_weather_data;

fn s(v: &str) -> Option<String> {
    Some(v.to_string())
}

fn args() -> Args {
    Args {
        location: None,
        lang: None,
        main_indicator: "temp_C".to_string(),
        fahrenheit: false,
        mph: false,
        nerd: false,
        vertical_view: false,
        ampm: false,
        observation_time: false,
        date_format: "%d/%m".to_string(),
        custom_indicator: None,
        hide_conditions: false,
    }
}

fn current() -> CurrentCondition {
    CurrentCondition {
        temp_c: s("21"),
        temp_f: s("70"),
        feels_like_c: s("20"),
        feels_like_f: s("68"),
        humidity: s("65"),
        windspeed_kmph: s("11"),
        windspeed_miles: s("7"),
        weather_code: s("116"),
        observation_time: s("02:30 PM"),
        weather_desc: s("Partly <cloudy>"),
    }
}

fn area() -> NearestArea {
    NearestArea { area_name: s("Lisboa"), region: s(""), country: s("Portugal") }
}

fn hour(time: &str, temp: &str, code: &str, rain: &str, snow: &str) -> HourlyForecast {
    HourlyForecast {
        time: s(time),
        temp_c: s(temp),
        temp_f: s("50"),
        weather_code: s(code),
        chance_of_rain: s(rain),
        chance_of_snow: s(snow),
    }
}

fn day(date: &str) -> DayForecast {
    DayForecast {
        date: s(date),
        maxtemp_c: s("25"),
        mintemp_c: s("15"),
        maxtemp_f: s("77"),
        mintemp_f: s("59"),
        astronomy: Some(Astronomy {
            sunrise: s("06:30 AM"),
            sunset: s("05:45 PM"),
            moon_phase: s("Full Moon"),
        }),
        hourly: Some(vec![hour("0", "15", "113", "0", "0"), hour("300", "<14>", "xx", "20", "")]),
    }
}

fn weather(days: Vec<DayForecast>) -> WeatherData {
    WeatherData { current_condition: Some(current()), nearest_area: Some(area()), weather: Some(days) }
}

const DAY_TEXT: &str = "↑ 25° / ↓ 15°\n🌅 06:30 / 🌇 17:45\n🌙 🌕 Full Moon\n\n<i>0 15°☀️ 03:00 &lt;14&gt;°🌡️ (Chance of rain: 20%)</i>\n";

#[test]
fn location_string_skips_missing_parts() {
    assert_eq!(build_location_string(&area()), "Lisboa, Portugal");
    let none = NearestArea { area_name: None, region: None, country: None };
    assert_eq!(build_location_string(&none), "");
    let only_region = NearestArea { area_name: s(""), region: s("Ile-de-France"), country: None };
    assert_eq!(build_location_string(&only_region), "Ile-de-France");
}

#[test]
fn chances_leave_out_zero_and_empty() {
    assert_eq!(format_chances(&hour("0", "1", "113", "0", "0"), &Lang::EN), "");
    assert_eq!(
        format_chances(&hour("0", "1", "113", "30", "5"), &Lang::PT),
        "Chance de chuva: 30%, Chance de neve: 5%"
    );
    assert_eq!(format_chances(&hour("0", "1", "113", "", "<9>"), &Lang::EN), "Chance of snow: &lt;9&gt;%");
}

#[test]
fn custom_indicator_replaces_placeholders() {
    let text = format_indicator(&current(), &area(), "{weather_icon} {temp_C}/{temp_F} {humidity}% {area} {region} {country} {wind_mph}".to_string(), "⛅");
    assert_eq!(text, "⛅ 21/70 65% Lisboa  Portugal 7");
    let missing = CurrentCondition { temp_c: None, ..current() };
    assert_eq!(format_indicator(&missing, &area(), "{temp_C}{temp_C}".to_string(), "x"), "??");
}

#[test]
fn main_text_follows_the_indicator_asked_for() {
    let a = args();
    assert_eq!(generate_main_text(&current(), &area(), "⛅", &a), "⛅ 21");
    let f = Args { fahrenheit: true, ..args() };
    assert_eq!(generate_main_text(&current(), &area(), "⛅", &f), "⛅ 70");
    let h = Args { main_indicator: "humidity".to_string(), vertical_view: true, ..args() };
    assert_eq!(generate_main_text(&current(), &area(), "⛅", &h), "⛅\n65");
    let other = Args { main_indicator: "pressure".to_string(), ..args() };
    assert_eq!(generate_main_text(&current(), &area(), "⛅", &other), "⛅ 21");
    let feels = Args { main_indicator: "FeelsLikeF".to_string(), ..args() };
    assert_eq!(generate_main_text(&current(), &area(), "⛅", &feels), "⛅ 68");
    let custom = Args { custom_indicator: s("{weather_icon}{feels_like_C}"), ..args() };
    assert_eq!(generate_main_text(&current(), &area(), "⛅", &custom), "⛅20");
}

#[test]
fn css_class_is_fixed() {
    assert_eq!(generate_css_class(&current(), &Lang::DE), "wttrbar");
}

#[test]
fn forecast_from_a_given_day() {
    let days = vec![day("2024-05-09"), day("2024-05-10"), day("2024-05-11"), day("bad")];
    let mut t = String::from("head");
    append_forecast_for_date(&mut t, &days, &args(), &Lang::EN, (2024, 5, 10));
    let expected = format!(
        "head\n<b>Today, 10/05</b>\n{}\n<b>Tomorrow, 11/05</b>\n{}",
        DAY_TEXT, DAY_TEXT
    );
    assert_eq!(t, expected);
}

#[test]
fn forecast_hides_hours_and_uses_other_units() {
    let days = vec![day("2030-01-01")];
    let a = Args { hide_conditions: true, fahrenheit: true, nerd: true, ampm: true, ..args() };
    let mut t = String::new();
    append_forecast_for_date(&mut t, &days, &a, &Lang::PT, (2029, 12, 31));
    assert_eq!(
        t,
        "\n<b>Hoje, 01/01</b>\n\u{f0ce1} 77° / \u{f0d1f} 59°\n🌅 06:30 AM / 🌇 05:45 PM\n🌙 🌕 Full Moon\n"
    );
}

#[test]
fn forecast_date_in_the_locale_of_the_language() {
    let days = vec![day("2024-05-10")];
    let a = Args { date_format: "%A".to_string(), hide_conditions: true, ..args() };
    let mut t = String::new();
    append_forecast_for_date(&mut t, &days, &a, &Lang::FR, (2024, 5, 1));
    assert!(t.starts_with("\n<b>Aujourd'hui, vendredi</b>\n"), "{}", t);
}

#[test]
fn tooltip_with_todays_forecast() {
    let today = Local::now().date_naive().format("%Y-%m-%d").to_string();
    let a = Args { observation_time: true, ..args() };
    let w = weather(vec![day("2000-01-01"), day(&today)]);
    let t = generate_tooltip(&w, &current(), &area(), &a, &Lang::EN).unwrap();
    let date = Local::now().date_naive().format("%d/%m").to_string();
    let expected = format!(
        "<b>Partly &lt;cloudy&gt;</b> 21°\nFeels like: 20°\nWind: 11 km/h\nHumidity: 65%\nLocation: Lisboa, Portugal\nObservation time: 14:30\n\n<b>Today, {}</b>\n{}",
        date, DAY_TEXT
    );
    assert_eq!(t, expected);
}

#[test]
fn tooltip_without_forecast_fails() {
    let w = WeatherData { weather: None, ..weather(vec![]) };
    match generate_tooltip(&w, &current(), &area(), &args(), &Lang::EN) {
        Err(AppError::ParseError(m)) => assert_eq!(m, "Dados de previsão ausentes"),
        _ => panic!("expected a parse error"),
    }
}

fn problem(w: &WeatherData) -> String {
    match process_weather_data(w, &args(), &Lang::EN) {
        Err(AppError::ParseError(m)) => m,
        _ => panic!("expected a parse error"),
    }
}

#[test]
fn report_without_its_parts_is_refused_in_order() {
    let no_current = WeatherData { current_condition: None, nearest_area: None, weather: None };
    assert_eq!(problem(&no_current), "Dados atuais ausentes");
    let no_area = WeatherData { nearest_area: None, weather: None, ..weather(vec![]) };
    assert_eq!(problem(&no_area), "Dados de localização ausentes");
    let bad_code = WeatherData {
        current_condition: Some(CurrentCondition { weather_code: s("abc"), ..current() }),
        ..weather(vec![])
    };
    assert_eq!(problem(&bad_code), "Código climático inválido");
    let no_forecast = WeatherData { weather: None, ..weather(vec![]) };
    assert_eq!(problem(&no_forecast), "Dados de previsão ausentes");
}

#[test]
fn report_is_shown_in_the_bar() {
    let out = process_weather_data(&weather(vec![]), &args(), &Lang::ES).unwrap();
    assert_eq!(out.text, "⛅ 21");
    assert_eq!(out.class, "wttrbar");
    assert_eq!(
        out.tooltip,
        "<b>Partly &lt;cloudy&gt;</b> 21°\nSensación térmica: 20°\nViento: 11 km/h\nHumedad: 65%\nUbicación: Lisboa, Portugal\n"
    );
}

#[test]
fn report_texts_add_no_markup() {
    let evil = "<i>x</i><script>";
    let cc = CurrentCondition {
        temp_c: s(evil),
        temp_f: s(evil),
        feels_like_c: s(evil),
        feels_like_f: s(evil),
        humidity: s(evil),
        windspeed_kmph: s(evil),
        windspeed_miles: s(evil),
        weather_code: s("113"),
        observation_time: s(evil),
        weather_desc: s(evil),
    };
    let na = NearestArea { area_name: s(evil), region: s(evil), country: s(evil) };
    let mut d = day("2024-05-10");
    d.maxtemp_c = s(evil);
    d.astronomy = Some(Astronomy { sunrise: s(evil), sunset: s(evil), moon_phase: s(evil) });
    d.hourly = Some(vec![hour(evil, evil, evil, evil, evil)]);
    let a = Args { observation_time: true, ..args() };
    let mut t = String::new();
    append_forecast_for_date(&mut t, &vec![d], &a, &Lang::EN, (2024, 5, 10));
    let w = WeatherData { current_condition: Some(cc), nearest_area: Some(na), weather: Some(vec![]) };
    let head = generate_tooltip(&w, w.current_condition.as_ref().unwrap(), w.nearest_area.as_ref().unwrap(), &a, &Lang::EN).unwrap();
    let all = format!("{}{}", head, t);
    for (i, _) in all.match_indices('<') {
        let rest = &all[i..];
        assert!(
            rest.starts_with("<b>") || rest.starts_with("</b>") || rest.starts_with("<i>") || rest.starts_with("</i>"),
            "stray markup at {}: {}",
            i,
            rest
        );
    }
    assert!(all.contains("&lt;script&gt;"));
}

#[test]
fn heading_is_closed_where_the_date_cannot_be_written() {
    let days = vec![day("2024-05-10")];
    let a = Args { date_format: "%Q".to_string(), hide_conditions: true, ..args() };
    let mut t = String::new();
    append_forecast_for_date(&mut t, &days, &a, &Lang::EN, (2024, 5, 10));
    assert!(t.starts_with("\n<b>Today, </b>\n↑ 25°"), "{}", t);
}
