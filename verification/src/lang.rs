//! The languages of the indicator and the words it uses in each.
use vstd::prelude::*;
use crate::model::CurrentCondition;

verus! {

/// The languages that the indicator can speak.
#[derive(Debug, Clone, Copy, PartialEq, Eq, Structural)]
pub enum Lang {
    EN,
    PT,
    ES,
    FR,
    DE,
}
/// The host of the weather service that answers in this language.
pub open spec fn subdomain_text(l: Lang) -> Seq<char> {
    match l {
        Lang::EN => "wttr.in"@,
        Lang::PT => "pt.wttr.in"@,
        Lang::ES => "es.wttr.in"@,
        Lang::FR => "fr.wttr.in"@,
        Lang::DE => "de.wttr.in"@,
    }
}

/// The name of the locale that dates are written in.
pub open spec fn locale_text(l: Lang) -> Seq<char> {
    match l {
        Lang::EN => "en_US"@,
        Lang::PT => "pt_BR"@,
        Lang::ES => "es_ES"@,
        Lang::FR => "fr_FR"@,
        Lang::DE => "de_DE"@,
    }
}

/// The label of the felt temperature.
pub open spec fn feels_like_text(l: Lang) -> Seq<char> {
    match l {
        Lang::EN => "Feels like"@,
        Lang::PT => "Sensação térmica"@,
        Lang::ES => "Sensación térmica"@,
        Lang::FR => "Ressenti"@,
        Lang::DE => "Gefühlt wie"@,
    }
}

/// The label of the wind speed.
pub open spec fn wind_text(l: Lang) -> Seq<char> {
    match l {
        Lang::EN => "Wind"@,
        Lang::PT => "Vento"@,
        Lang::ES => "Viento"@,
        Lang::FR => "Vent"@,
        Lang::DE => "Wind"@,
    }
}

/// The label of the humidity.
pub open spec fn humidity_text(l: Lang) -> Seq<char> {
    match l {
        Lang::EN => "Humidity"@,
        Lang::PT => "Umidade"@,
        Lang::ES => "Humedad"@,
        Lang::FR => "Humidité"@,
        Lang::DE => "Luftfeuchtigkeit"@,
    }
}

/// The label of the place.
pub open spec fn location_label_text(l: Lang) -> Seq<char> {
    match l {
        Lang::EN => "Location"@,
        Lang::PT => "Localização"@,
        Lang::ES => "Ubicación"@,
        Lang::FR => "Localisation"@,
        Lang::DE => "Ort"@,
    }
}

/// The label of the time of the observation.
pub open spec fn observation_time_text(l: Lang) -> Seq<char> {
    match l {
        Lang::EN => "Observation time"@,
        Lang::PT => "Hora da observação"@,
        Lang::ES => "Hora de observación"@,
        Lang::FR => "Heure d'observation"@,
        Lang::DE => "Beobachtungszeit"@,
    }
}

/// The word for today.
pub open spec fn today_text(l: Lang) -> Seq<char> {
    match l {
        Lang::EN => "Today"@,
        Lang::PT => "Hoje"@,
        Lang::ES => "Hoy"@,
        Lang::FR => "Aujourd'hui"@,
        Lang::DE => "Heute"@,
    }
}

/// The word for tomorrow.
pub open spec fn tomorrow_text(l: Lang) -> Seq<char> {
    match l {
        Lang::EN => "Tomorrow"@,
        Lang::PT => "Amanhã"@,
        Lang::ES => "Mañana"@,
        Lang::FR => "Demain"@,
        Lang::DE => "Morgen"@,
    }
}

/// The label of the chance of rain.
pub open spec fn chance_of_rain_text(l: Lang) -> Seq<char> {
    match l {
        Lang::EN => "Chance of rain"@,
        Lang::PT => "Chance de chuva"@,
        Lang::ES => "Probabilidad de lluvia"@,
        Lang::FR => "Risque de pluie"@,
        Lang::DE => "Regenwahrscheinlichkeit"@,
    }
}

/// The label of the chance of snow.
pub open spec fn chance_of_snow_text(l: Lang) -> Seq<char> {
    match l {
        Lang::EN => "Chance of snow"@,
        Lang::PT => "Chance de neve"@,
        Lang::ES => "Probabilidad de nieve"@,
        Lang::FR => "Risque de neige"@,
        Lang::DE => "Schneewahrscheinlichkeit"@,
    }
}

/// The short code of the language, as it is written on the command line.
pub open spec fn code_text(l: Lang) -> Seq<char> {
    match l {
        Lang::EN => "en"@,
        Lang::PT => "pt"@,
        Lang::ES => "es"@,
        Lang::FR => "fr"@,
        Lang::DE => "de"@,
    }
}

impl Lang {
    /// The host of the weather service that answers in this language.
    pub fn wttr_in_subdomain(&self) -> (r: &'static str)
        ensures
            r@ == subdomain_text(*self),
    {
        match self {
            Lang::EN => "wttr.in",
            Lang::PT => "pt.wttr.in",
            Lang::ES => "es.wttr.in",
            Lang::FR => "fr.wttr.in",
            Lang::DE => "de.wttr.in",
        }
    }

    /// The name of the locale that dates are written in.
    pub fn locale_str(&self) -> (r: &'static str)
        ensures
            r@ == locale_text(*self),
    {
        match self {
            Lang::EN => "en_US",
            Lang::PT => "pt_BR",
            Lang::ES => "es_ES",
            Lang::FR => "fr_FR",
            Lang::DE => "de_DE",
        }
    }

    /// The label of the felt temperature.
    pub fn feels_like(&self) -> (r: &'static str)
        ensures
            r@ == feels_like_text(*self),
    {
        match self {
            Lang::EN => "Feels like",
            Lang::PT => "Sensação térmica",
            Lang::ES => "Sensación térmica",
            Lang::FR => "Ressenti",
            Lang::DE => "Gefühlt wie",
        }
    }

    /// The label of the wind speed.
    pub fn wind(&self) -> (r: &'static str)
        ensures
            r@ == wind_text(*self),
    {
        match self {
            Lang::EN => "Wind",
            Lang::PT => "Vento",
            Lang::ES => "Viento",
            Lang::FR => "Vent",
            Lang::DE => "Wind",
        }
    }

    /// The label of the humidity.
    pub fn humidity(&self) -> (r: &'static str)
        ensures
            r@ == humidity_text(*self),
    {
        match self {
            Lang::EN => "Humidity",
            Lang::PT => "Umidade",
            Lang::ES => "Humedad",
            Lang::FR => "Humidité",
            Lang::DE => "Luftfeuchtigkeit",
        }
    }

    /// The label of the place.
    pub fn location(&self) -> (r: &'static str)
        ensures
            r@ == location_label_text(*self),
    {
        match self {
            Lang::EN => "Location",
            Lang::PT => "Localização",
            Lang::ES => "Ubicación",
            Lang::FR => "Localisation",
            Lang::DE => "Ort",
        }
    }

    /// The label of the time of the observation.
    pub fn observation_time(&self) -> (r: &'static str)
        ensures
            r@ == observation_time_text(*self),
    {
        match self {
            Lang::EN => "Observation time",
            Lang::PT => "Hora da observação",
            Lang::ES => "Hora de observación",
            Lang::FR => "Heure d'observation",
            Lang::DE => "Beobachtungszeit",
        }
    }

    /// The word for today.
    pub fn today(&self) -> (r: &'static str)
        ensures
            r@ == today_text(*self),
    {
        match self {
            Lang::EN => "Today",
            Lang::PT => "Hoje",
            Lang::ES => "Hoy",
            Lang::FR => "Aujourd'hui",
            Lang::DE => "Heute",
        }
    }

    /// The word for tomorrow.
    pub fn tomorrow(&self) -> (r: &'static str)
        ensures
            r@ == tomorrow_text(*self),
    {
        match self {
            Lang::EN => "Tomorrow",
            Lang::PT => "Amanhã",
            Lang::ES => "Mañana",
            Lang::FR => "Demain",
            Lang::DE => "Morgen",
        }
    }

    /// The label of the chance of rain.
    pub fn chance_of_rain(&self) -> (r: &'static str)
        ensures
            r@ == chance_of_rain_text(*self),
    {
        match self {
            Lang::EN => "Chance of rain",
            Lang::PT => "Chance de chuva",
            Lang::ES => "Probabilidad de lluvia",
            Lang::FR => "Risque de pluie",
            Lang::DE => "Regenwahrscheinlichkeit",
        }
    }

    /// The label of the chance of snow.
    pub fn chance_of_snow(&self) -> (r: &'static str)
        ensures
            r@ == chance_of_snow_text(*self),
    {
        match self {
            Lang::EN => "Chance of snow",
            Lang::PT => "Chance de neve",
            Lang::ES => "Probabilidad de nieve",
            Lang::FR => "Risque de neige",
            Lang::DE => "Schneewahrscheinlichkeit",
        }
    }

    /// The short code of the language, as it is written on the command line.
    pub fn code(&self) -> (r: &'static str)
        ensures
            r@ == code_text(*self),
    {
        match self {
            Lang::EN => "en",
            Lang::PT => "pt",
            Lang::ES => "es",
            Lang::FR => "fr",
            Lang::DE => "de",
        }
    }

    /// The description of the present weather, where the report holds one.
    pub fn weather_desc_value(&self, data: &CurrentCondition) -> (r: Option<String>)
        ensures
            match r {
                Some(d) => data.weather_desc matches Some(w) && d@ == w@,
                None => data.weather_desc is None,
            },
    {
        match &data.weather_desc {
            Some(w) => Some(w.clone()),
            None => None,
        }
    }
}

} // verus!
