//! The data the indicator works on, the options it takes and the errors it
//! reports.
use vstd::prelude::*;
use vstd::string::StringExecFns;
use crate::lang::Lang;

verus! {

/// Errors of the application, each with its message.
#[derive(Debug)]
pub enum AppError {
    NetworkError(String),
    ParseError(String),
    CacheError(String),
    InvalidInput(String),
}

/// The text shown for an error: a prefix that names its kind, then its message.
pub open spec fn error_text(e: AppError) -> Seq<char> {
    match e {
        AppError::NetworkError(m) => "Erro de rede: "@ + m@,
        AppError::ParseError(m) => "Erro de parsing: "@ + m@,
        AppError::CacheError(m) => "Erro de cache: "@ + m@,
        AppError::InvalidInput(m) => "Entrada inválida: "@ + m@,
    }
}

impl AppError {
    /// The text shown for this error.
    pub fn message(&self) -> (text: String)
        ensures
            text@ == error_text(*self),
    {
        let mut text = String::new();
        match self {
            AppError::NetworkError(m) => {
                text.append("Erro de rede: ");
                text.append(m.as_str());
            },
            AppError::ParseError(m) => {
                text.append("Erro de parsing: ");
                text.append(m.as_str());
            },
            AppError::CacheError(m) => {
                text.append("Erro de cache: ");
                text.append(m.as_str());
            },
            AppError::InvalidInput(m) => {
                text.append("Entrada inválida: ");
                text.append(m.as_str());
            },
        }
        text
    }
}

/// A field of the weather report as text: its value where the service gave
/// one, `d` where it did not.
pub open spec fn text_or(o: Option<String>, d: Seq<char>) -> Seq<char> {
    match o {
        Some(s) => s@,
        None => d,
    }
}

/// The value of a field of the weather report, or `d` where there is none.
pub fn str_or<'a>(o: &'a Option<String>, d: &'a str) -> (r: &'a str)
    ensures
        r@ == text_or(*o, d@),
{
    match o {
        Some(s) => s.as_str(),
        None => d,
    }
}

/// The conditions observed now, as the weather service reports them
/// (`current_condition[0]`). A field is `None` where the report holds no
/// text there.
pub struct CurrentCondition {
    /// `temp_C`
    pub temp_c: Option<String>,
    /// `temp_F`
    pub temp_f: Option<String>,
    /// `FeelsLikeC`
    pub feels_like_c: Option<String>,
    /// `FeelsLikeF`
    pub feels_like_f: Option<String>,
    /// `humidity`
    pub humidity: Option<String>,
    /// `windspeedKmph`
    pub windspeed_kmph: Option<String>,
    /// `windspeedMiles`
    pub windspeed_miles: Option<String>,
    /// `weatherCode`
    pub weather_code: Option<String>,
    /// `observation_time`
    pub observation_time: Option<String>,
    /// `weatherDesc[0].value`
    pub weather_desc: Option<String>,
}

/// The place the report is for (`nearest_area[0]`).
pub struct NearestArea {
    /// `areaName[0].value`
    pub area_name: Option<String>,
    /// `region[0].value`
    pub region: Option<String>,
    /// `country[0].value`
    pub country: Option<String>,
}

/// Sun and moon for one day (`astronomy[0]`).
pub struct Astronomy {
    /// `sunrise`
    pub sunrise: Option<String>,
    /// `sunset`
    pub sunset: Option<String>,
    /// `moon_phase`
    pub moon_phase: Option<String>,
}

/// The forecast for one hour of a day (an element of `hourly`).
pub struct HourlyForecast {
    /// `time`, as hours and minutes run together (`"0"`, `"300"`, `"1500"`)
    pub time: Option<String>,
    /// `temp_C`
    pub temp_c: Option<String>,
    /// `temp_F`
    pub temp_f: Option<String>,
    /// `weatherCode`
    pub weather_code: Option<String>,
    /// `chanceofrain`
    pub chance_of_rain: Option<String>,
    /// `chanceofsnow`
    pub chance_of_snow: Option<String>,
}

/// The forecast for one day (an element of `weather`).
pub struct DayForecast {
    /// `date`, as `YYYY-MM-DD`
    pub date: Option<String>,
    /// `maxtempC`
    pub maxtemp_c: Option<String>,
    /// `mintempC`
    pub mintemp_c: Option<String>,
    /// `maxtempF`
    pub maxtemp_f: Option<String>,
    /// `mintempF`
    pub mintemp_f: Option<String>,
    /// `astronomy[0]`, where `astronomy` is a list that is not empty
    pub astronomy: Option<Astronomy>,
    /// `hourly`, where it is a list
    pub hourly: Option<Vec<HourlyForecast>>,
}

/// A weather report of the service.
pub struct WeatherData {
    /// `current_condition[0]`, where `current_condition` is a list that is not empty
    pub current_condition: Option<CurrentCondition>,
    /// `nearest_area[0]`, where `nearest_area` is a list that is not empty
    pub nearest_area: Option<NearestArea>,
    /// `weather`, where it is a list
    pub weather: Option<Vec<DayForecast>>,
}

/// What the user asked for on the command line.
pub struct Args {
    /// The place to report on; the service locates the caller where there is none.
    pub location: Option<String>,
    /// The language of the report; English where there is none.
    pub lang: Option<Lang>,
    /// The value shown in the bar: `temp_C`, `temp_F`, `humidity`,
    /// `FeelsLikeC` or `FeelsLikeF` (anything else shows `temp_C`).
    pub main_indicator: String,
    /// Temperatures in Fahrenheit.
    pub fahrenheit: bool,
    /// Wind speed in miles per hour.
    pub mph: bool,
    /// Nerd Fonts glyphs in place of emoji.
    pub nerd: bool,
    /// The icon above the value in the bar, not beside it.
    pub vertical_view: bool,
    /// Times on a 12-hour dial.
    pub ampm: bool,
    /// The time of the observation in the tooltip.
    pub observation_time: bool,
    /// The format of the dates in the tooltip (chrono's `strftime` language).
    pub date_format: String,
    /// A text for the bar in which `{temp_C}`, `{humidity}`, `{weather_icon}`
    /// and the like are replaced by their values.
    pub custom_indicator: Option<String>,
    /// No hourly forecast in the tooltip.
    pub hide_conditions: bool,
}

/// The text, tooltip and style class handed to the status bar.
pub struct WeatherOutput {
    pub text: String,
    pub tooltip: String,
    pub class: String,
}

impl WeatherOutput {
    /// An output whose three parts are empty.
    pub fn new() -> (out: WeatherOutput)
        ensures
            out.text@ == Seq::<char>::empty(),
            out.tooltip@ == Seq::<char>::empty(),
            out.class@ == Seq::<char>::empty(),
    {
        WeatherOutput { text: String::new(), tooltip: String::new(), class: String::new() }
    }
}

} // verus!
