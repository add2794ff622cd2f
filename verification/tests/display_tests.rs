use wttrbar::clock::{format_ampm_time, format_time, AstronomyField};
use wttrbar::icons::{format_moon_phase_icon, get_weather_codes_map, get_weather_codes_nerd_map,
    get_weather_icon, moon_phase_icon_for};
use wttrbar::lang::Lang;
use wttrbar::model::{Astronomy, DayForecast, WeatherOutput};

fn day_with_astronomy(sunrise: Option<&str>, sunset: Option<&str>) -> DayForecast {
    DayForecast {
        date: None,
        maxtemp_c: None,
        mintemp_c: None,
        maxtemp_f: None,
        mintemp_f: None,
        astronomy: Some(Astronomy {
            sunrise: sunrise.map(|s| s.to_string()),
            sunset: sunset.map(|s| s.to_string()),
            moon_phase: None,
        }),
        hourly: None,
    }
}

#[test]
fn languages_have_their_words() {
    assert_eq!(Lang::EN.wttr_in_subdomain(), "wttr.in");
    assert_eq!(Lang::DE.wttr_in_subdomain(), "de.wttr.in");
    assert_eq!(Lang::PT.locale_str(), "pt_BR");
    assert_eq!(Lang::FR.locale_str(), "fr_FR");
    assert_eq!(Lang::PT.feels_like(), "Sensação térmica");
    assert_eq!(Lang::ES.wind(), "Viento");
    assert_eq!(Lang::DE.humidity(), "Luftfeuchtigkeit");
    assert_eq!(Lang::FR.location(), "Localisation");
    assert_eq!(Lang::FR.observation_time(), "Heure d'observation");
    assert_eq!(Lang::FR.today(), "Aujourd'hui");
    assert_eq!(Lang::PT.tomorrow(), "Amanhã");
    assert_eq!(Lang::ES.chance_of_rain(), "Probabilidad de lluvia");
    assert_eq!(Lang::DE.chance_of_snow(), "Schneewahrscheinlichkeit");
    assert_eq!(Lang::ES.code(), "es");
    assert_eq!(Lang::EN.code(), "en");
}

#[test]
fn weather_icons_by_code() {
    assert_eq!(get_weather_icon(113, false), "☀️");
    assert_eq!(get_weather_icon(113, true), "󰖙");
    assert_eq!(get_weather_icon(200, false), "⛈️");
    assert_eq!(get_weather_icon(395, false), "❄️");
    assert_eq!(get_weather_icon(999, false), "🌡️");
    assert_eq!(get_weather_icon(-5, true), "🌡️");
}

#[test]
fn icon_maps_hold_the_forty_eight_codes() {
    let m = get_weather_codes_map();
    let n = get_weather_codes_nerd_map();
    assert_eq!(m.len(), 48);
    assert_eq!(n.len(), 48);
    assert_eq!(m.get(&116).map(|s| s.as_str()), Some("⛅"));
    assert_eq!(n.get(&116).map(|s| s.as_str()), Some("󰖕"));
    assert!(m.keys().all(|k| n.contains_key(k)));
}

#[test]
fn moon_phases_whatever_their_case() {
    assert_eq!(format_moon_phase_icon("Full Moon", false), "🌕");
    assert_eq!(format_moon_phase_icon("WANING CRESCENT", true), "🌘");
    assert_eq!(format_moon_phase_icon("First Quarter", false), "🌓");
    assert_eq!(format_moon_phase_icon("Eclipse", false), "🌑");
    assert_eq!(moon_phase_icon_for("waxing gibbous"), "🌔");
    assert_eq!(moon_phase_icon_for("Waxing Gibbous"), "🌑");
}

#[test]
fn hourly_times_on_both_dials() {
    assert_eq!(format_time("0", false), "0");
    assert_eq!(format_time("", true), "");
    assert_eq!(format_time("300", false), "03:00");
    assert_eq!(format_time("300", true), "03:00 AM");
    assert_eq!(format_time("1500", false), "15:00");
    assert_eq!(format_time("1500", true), "03:00 PM");
    assert_eq!(format_time("0000", true), "12:00 AM");
    assert_eq!(format_time("1200", true), "12:00 PM");
    assert_eq!(format_time("12345", false), "123:45");
    assert_eq!(format_time("ab", false), "00:00");
    assert_eq!(format_time("+1+5", false), "01:05");
}

#[test]
fn hourly_time_cut_inside_a_character_counts_as_zero() {
    assert_eq!(format_time("é0", false), "00:00");
    assert_eq!(format_time("1é", false), "01:00");
}

#[test]
fn sunrise_and_sunset_times() {
    let day = day_with_astronomy(Some("07:12 AM"), Some("07:45 PM"));
    assert_eq!(format_ampm_time(&day, AstronomyField::Sunrise, false), "07:12");
    assert_eq!(format_ampm_time(&day, AstronomyField::Sunset, false), "19:45");
    assert_eq!(format_ampm_time(&day, AstronomyField::Sunset, true), "07:45 PM");
    let odd = day_with_astronomy(Some("No sunrise"), None);
    assert_eq!(format_ampm_time(&odd, AstronomyField::Sunrise, false), "No sunrise");
    assert_eq!(format_ampm_time(&odd, AstronomyField::Sunset, true), "00:00 AM");
}

#[test]
fn new_output_is_empty() {
    let out = WeatherOutput::new();
    assert_eq!(out.text, "");
    assert_eq!(out.tooltip, "");
    assert_eq!(out.class, "");
}

#[test]
fn moon_icon_does_not_depend_on_the_glyph_set() {
    for p in ["New Moon", "Waxing Crescent", "Last Quarter", "blue moon", ""] {
        assert_eq!(format_moon_phase_icon(p, true), format_moon_phase_icon(p, false));
    }
    assert_eq!(format_moon_phase_icon("blue moon", true), "🌑");
    assert_eq!(format_moon_phase_icon("LAST QUARTER", true), "🌗");
}
