use crate::text::{bytes_spell, str_eq};
use vstd::prelude::*;
use vstd::utf8::{decode_utf8, valid_utf8};

verus! {

/// The weather condition that a forecast interval expects.
#[allow(non_camel_case_types)]
#[derive(Clone, Copy, Debug, PartialEq, Eq, Structural)]
pub enum WeatherCode {
    Unknown,
    Clear,
    Cloudy,
    Mostly_Clear,
    Partly_Cloudy,
    Mostly_Cloudy,
    Fog,
    Light_Fog,
    Light_Wind,
    Wind,
    Strong_Wind,
    Drizzle,
    Rain,
    Light_Rain,
    Heavy_Rain,
    Snow,
    Flurries,
    Light_Snow,
    Heavy_Snow,
    Freezing_Drizzle,
    Freezing_Rain,
    Light_Freezing_Rain,
    Heavy_Freezing_Rain,
    Ice_Pellets,
    Heavy_Ice_Pellets,
    Light_Ice_Pellets,
    Thunderstorm,
}

impl WeatherCode {
    /// The number that the provider sends for this condition.
    pub open spec fn spec_code(self) -> i16 {
        match self {
            WeatherCode::Unknown => 0,
            WeatherCode::Clear => 1000,
            WeatherCode::Cloudy => 1001,
            WeatherCode::Mostly_Clear => 1100,
            WeatherCode::Partly_Cloudy => 1101,
            WeatherCode::Mostly_Cloudy => 1102,
            WeatherCode::Fog => 2000,
            WeatherCode::Light_Fog => 2100,
            WeatherCode::Light_Wind => 3000,
            WeatherCode::Wind => 3001,
            WeatherCode::Strong_Wind => 3002,
            WeatherCode::Drizzle => 4000,
            WeatherCode::Rain => 4001,
            WeatherCode::Light_Rain => 4200,
            WeatherCode::Heavy_Rain => 4201,
            WeatherCode::Snow => 5000,
            WeatherCode::Flurries => 5001,
            WeatherCode::Light_Snow => 5100,
            WeatherCode::Heavy_Snow => 5101,
            WeatherCode::Freezing_Drizzle => 6000,
            WeatherCode::Freezing_Rain => 6001,
            WeatherCode::Light_Freezing_Rain => 6200,
            WeatherCode::Heavy_Freezing_Rain => 6201,
            WeatherCode::Ice_Pellets => 7000,
            WeatherCode::Heavy_Ice_Pellets => 7101,
            WeatherCode::Light_Ice_Pellets => 7102,
            WeatherCode::Thunderstorm => 8000,
        }
    }

    /// The condition that a number of the provider stands for, if any.
    pub open spec fn spec_from_code(code: i16) -> Option<WeatherCode> {
        if code == 0 {
            Some(WeatherCode::Unknown)
        } else if code == 1000 {
            Some(WeatherCode::Clear)
        } else if code == 1001 {
            Some(WeatherCode::Cloudy)
        } else if code == 1100 {
            Some(WeatherCode::Mostly_Clear)
        } else if code == 1101 {
            Some(WeatherCode::Partly_Cloudy)
        } else if code == 1102 {
            Some(WeatherCode::Mostly_Cloudy)
        } else if code == 2000 {
            Some(WeatherCode::Fog)
        } else if code == 2100 {
            Some(WeatherCode::Light_Fog)
        } else if code == 3000 {
            Some(WeatherCode::Light_Wind)
        } else if code == 3001 {
            Some(WeatherCode::Wind)
        } else if code == 3002 {
            Some(WeatherCode::Strong_Wind)
        } else if code == 4000 {
            Some(WeatherCode::Drizzle)
        } else if code == 4001 {
            Some(WeatherCode::Rain)
        } else if code == 4200 {
            Some(WeatherCode::Light_Rain)
        } else if code == 4201 {
            Some(WeatherCode::Heavy_Rain)
        } else if code == 5000 {
            Some(WeatherCode::Snow)
        } else if code == 5001 {
            Some(WeatherCode::Flurries)
        } else if code == 5100 {
            Some(WeatherCode::Light_Snow)
        } else if code == 5101 {
            Some(WeatherCode::Heavy_Snow)
        } else if code == 6000 {
            Some(WeatherCode::Freezing_Drizzle)
        } else if code == 6001 {
            Some(WeatherCode::Freezing_Rain)
        } else if code == 6200 {
            Some(WeatherCode::Light_Freezing_Rain)
        } else if code == 6201 {
            Some(WeatherCode::Heavy_Freezing_Rain)
        } else if code == 7000 {
            Some(WeatherCode::Ice_Pellets)
        } else if code == 7101 {
            Some(WeatherCode::Heavy_Ice_Pellets)
        } else if code == 7102 {
            Some(WeatherCode::Light_Ice_Pellets)
        } else if code == 8000 {
            Some(WeatherCode::Thunderstorm)
        } else {
            None
        }
    }

    /// The name under which this condition is stored and served.
    pub open spec fn spec_name(self) -> Seq<char> {
        match self {
            WeatherCode::Unknown => "Unknown"@,
            WeatherCode::Clear => "Clear"@,
            WeatherCode::Cloudy => "Cloudy"@,
            WeatherCode::Mostly_Clear => "Mostly_Clear"@,
            WeatherCode::Partly_Cloudy => "Partly_Cloudy"@,
            WeatherCode::Mostly_Cloudy => "Mostly_Cloudy"@,
            WeatherCode::Fog => "Fog"@,
            WeatherCode::Light_Fog => "Light_Fog"@,
            WeatherCode::Light_Wind => "Light_Wind"@,
            WeatherCode::Wind => "Wind"@,
            WeatherCode::Strong_Wind => "Strong_Wind"@,
            WeatherCode::Drizzle => "Drizzle"@,
            WeatherCode::Rain => "Rain"@,
            WeatherCode::Light_Rain => "Light_Rain"@,
            WeatherCode::Heavy_Rain => "Heavy_Rain"@,
            WeatherCode::Snow => "Snow"@,
            WeatherCode::Flurries => "Flurries"@,
            WeatherCode::Light_Snow => "Light_Snow"@,
            WeatherCode::Heavy_Snow => "Heavy_Snow"@,
            WeatherCode::Freezing_Drizzle => "Freezing_Drizzle"@,
            WeatherCode::Freezing_Rain => "Freezing_Rain"@,
            WeatherCode::Light_Freezing_Rain => "Light_Freezing_Rain"@,
            WeatherCode::Heavy_Freezing_Rain => "Heavy_Freezing_Rain"@,
            WeatherCode::Ice_Pellets => "Ice_Pellets"@,
            WeatherCode::Heavy_Ice_Pellets => "Heavy_Ice_Pellets"@,
            WeatherCode::Light_Ice_Pellets => "Light_Ice_Pellets"@,
            WeatherCode::Thunderstorm => "Thunderstorm"@,
        }
    }

    /// The condition that a name spells, if any. Names are matched exactly.
    pub open spec fn spec_from_name(text: Seq<char>) -> Option<WeatherCode> {
        if text == "Unknown"@ {
            Some(WeatherCode::Unknown)
        } else if text == "Clear"@ {
            Some(WeatherCode::Clear)
        } else if text == "Cloudy"@ {
            Some(WeatherCode::Cloudy)
        } else if text == "Mostly_Clear"@ {
            Some(WeatherCode::Mostly_Clear)
        } else if text == "Partly_Cloudy"@ {
            Some(WeatherCode::Partly_Cloudy)
        } else if text == "Mostly_Cloudy"@ {
            Some(WeatherCode::Mostly_Cloudy)
        } else if text == "Fog"@ {
            Some(WeatherCode::Fog)
        } else if text == "Light_Fog"@ {
            Some(WeatherCode::Light_Fog)
        } else if text == "Light_Wind"@ {
            Some(WeatherCode::Light_Wind)
        } else if text == "Wind"@ {
            Some(WeatherCode::Wind)
        } else if text == "Strong_Wind"@ {
            Some(WeatherCode::Strong_Wind)
        } else if text == "Drizzle"@ {
            Some(WeatherCode::Drizzle)
        } else if text == "Rain"@ {
            Some(WeatherCode::Rain)
        } else if text == "Light_Rain"@ {
            Some(WeatherCode::Light_Rain)
        } else if text == "Heavy_Rain"@ {
            Some(WeatherCode::Heavy_Rain)
        } else if text == "Snow"@ {
            Some(WeatherCode::Snow)
        } else if text == "Flurries"@ {
            Some(WeatherCode::Flurries)
        } else if text == "Light_Snow"@ {
            Some(WeatherCode::Light_Snow)
        } else if text == "Heavy_Snow"@ {
            Some(WeatherCode::Heavy_Snow)
        } else if text == "Freezing_Drizzle"@ {
            Some(WeatherCode::Freezing_Drizzle)
        } else if text == "Freezing_Rain"@ {
            Some(WeatherCode::Freezing_Rain)
        } else if text == "Light_Freezing_Rain"@ {
            Some(WeatherCode::Light_Freezing_Rain)
        } else if text == "Heavy_Freezing_Rain"@ {
            Some(WeatherCode::Heavy_Freezing_Rain)
        } else if text == "Ice_Pellets"@ {
            Some(WeatherCode::Ice_Pellets)
        } else if text == "Heavy_Ice_Pellets"@ {
            Some(WeatherCode::Heavy_Ice_Pellets)
        } else if text == "Light_Ice_Pellets"@ {
            Some(WeatherCode::Light_Ice_Pellets)
        } else if text == "Thunderstorm"@ {
            Some(WeatherCode::Thunderstorm)
        } else {
            None
        }
    }

    /// The condition that a stored text value spells: the bytes must be the
    /// UTF-8 encoding of a name.
    pub open spec fn spec_from_sql(raw: Seq<u8>) -> Option<WeatherCode> {
        if valid_utf8(raw) {
            Self::spec_from_name(decode_utf8(raw))
        } else {
            None
        }
    }

    pub fn code(self) -> (code: i16)
        ensures
            code == self.spec_code(),
    {
        match self {
            WeatherCode::Unknown => 0,
            WeatherCode::Clear => 1000,
            WeatherCode::Cloudy => 1001,
            WeatherCode::Mostly_Clear => 1100,
            WeatherCode::Partly_Cloudy => 1101,
            WeatherCode::Mostly_Cloudy => 1102,
            WeatherCode::Fog => 2000,
            WeatherCode::Light_Fog => 2100,
            WeatherCode::Light_Wind => 3000,
            WeatherCode::Wind => 3001,
            WeatherCode::Strong_Wind => 3002,
            WeatherCode::Drizzle => 4000,
            WeatherCode::Rain => 4001,
            WeatherCode::Light_Rain => 4200,
            WeatherCode::Heavy_Rain => 4201,
            WeatherCode::Snow => 5000,
            WeatherCode::Flurries => 5001,
            WeatherCode::Light_Snow => 5100,
            WeatherCode::Heavy_Snow => 5101,
            WeatherCode::Freezing_Drizzle => 6000,
            WeatherCode::Freezing_Rain => 6001,
            WeatherCode::Light_Freezing_Rain => 6200,
            WeatherCode::Heavy_Freezing_Rain => 6201,
            WeatherCode::Ice_Pellets => 7000,
            WeatherCode::Heavy_Ice_Pellets => 7101,
            WeatherCode::Light_Ice_Pellets => 7102,
            WeatherCode::Thunderstorm => 8000,
        }
    }

    pub fn from_code(code: i16) -> (found: Option<WeatherCode>)
        ensures
            found == Self::spec_from_code(code),
    {
        match code {
            0 => Some(WeatherCode::Unknown),
            1000 => Some(WeatherCode::Clear),
            1001 => Some(WeatherCode::Cloudy),
            1100 => Some(WeatherCode::Mostly_Clear),
            1101 => Some(WeatherCode::Partly_Cloudy),
            1102 => Some(WeatherCode::Mostly_Cloudy),
            2000 => Some(WeatherCode::Fog),
            2100 => Some(WeatherCode::Light_Fog),
            3000 => Some(WeatherCode::Light_Wind),
            3001 => Some(WeatherCode::Wind),
            3002 => Some(WeatherCode::Strong_Wind),
            4000 => Some(WeatherCode::Drizzle),
            4001 => Some(WeatherCode::Rain),
            4200 => Some(WeatherCode::Light_Rain),
            4201 => Some(WeatherCode::Heavy_Rain),
            5000 => Some(WeatherCode::Snow),
            5001 => Some(WeatherCode::Flurries),
            5100 => Some(WeatherCode::Light_Snow),
            5101 => Some(WeatherCode::Heavy_Snow),
            6000 => Some(WeatherCode::Freezing_Drizzle),
            6001 => Some(WeatherCode::Freezing_Rain),
            6200 => Some(WeatherCode::Light_Freezing_Rain),
            6201 => Some(WeatherCode::Heavy_Freezing_Rain),
            7000 => Some(WeatherCode::Ice_Pellets),
            7101 => Some(WeatherCode::Heavy_Ice_Pellets),
            7102 => Some(WeatherCode::Light_Ice_Pellets),
            8000 => Some(WeatherCode::Thunderstorm),
            _ => None,
        }
    }

    pub fn name(self) -> (name: &'static str)
        ensures
            name@ == self.spec_name(),
    {
        match self {
            WeatherCode::Unknown => "Unknown",
            WeatherCode::Clear => "Clear",
            WeatherCode::Cloudy => "Cloudy",
            WeatherCode::Mostly_Clear => "Mostly_Clear",
            WeatherCode::Partly_Cloudy => "Partly_Cloudy",
            WeatherCode::Mostly_Cloudy => "Mostly_Cloudy",
            WeatherCode::Fog => "Fog",
            WeatherCode::Light_Fog => "Light_Fog",
            WeatherCode::Light_Wind => "Light_Wind",
            WeatherCode::Wind => "Wind",
            WeatherCode::Strong_Wind => "Strong_Wind",
            WeatherCode::Drizzle => "Drizzle",
            WeatherCode::Rain => "Rain",
            WeatherCode::Light_Rain => "Light_Rain",
            WeatherCode::Heavy_Rain => "Heavy_Rain",
            WeatherCode::Snow => "Snow",
            WeatherCode::Flurries => "Flurries",
            WeatherCode::Light_Snow => "Light_Snow",
            WeatherCode::Heavy_Snow => "Heavy_Snow",
            WeatherCode::Freezing_Drizzle => "Freezing_Drizzle",
            WeatherCode::Freezing_Rain => "Freezing_Rain",
            WeatherCode::Light_Freezing_Rain => "Light_Freezing_Rain",
            WeatherCode::Heavy_Freezing_Rain => "Heavy_Freezing_Rain",
            WeatherCode::Ice_Pellets => "Ice_Pellets",
            WeatherCode::Heavy_Ice_Pellets => "Heavy_Ice_Pellets",
            WeatherCode::Light_Ice_Pellets => "Light_Ice_Pellets",
            WeatherCode::Thunderstorm => "Thunderstorm",
        }
    }

    pub fn from_name(text: &str) -> (found: Option<WeatherCode>)
        ensures
            found == Self::spec_from_name(text@),
    {
        if str_eq(text, "Unknown") {
            Some(WeatherCode::Unknown)
        } else if str_eq(text, "Clear") {
            Some(WeatherCode::Clear)
        } else if str_eq(text, "Cloudy") {
            Some(WeatherCode::Cloudy)
        } else if str_eq(text, "Mostly_Clear") {
            Some(WeatherCode::Mostly_Clear)
        } else if str_eq(text, "Partly_Cloudy") {
            Some(WeatherCode::Partly_Cloudy)
        } else if str_eq(text, "Mostly_Cloudy") {
            Some(WeatherCode::Mostly_Cloudy)
        } else if str_eq(text, "Fog") {
            Some(WeatherCode::Fog)
        } else if str_eq(text, "Light_Fog") {
            Some(WeatherCode::Light_Fog)
        } else if str_eq(text, "Light_Wind") {
            Some(WeatherCode::Light_Wind)
        } else if str_eq(text, "Wind") {
            Some(WeatherCode::Wind)
        } else if str_eq(text, "Strong_Wind") {
            Some(WeatherCode::Strong_Wind)
        } else if str_eq(text, "Drizzle") {
            Some(WeatherCode::Drizzle)
        } else if str_eq(text, "Rain") {
            Some(WeatherCode::Rain)
        } else if str_eq(text, "Light_Rain") {
            Some(WeatherCode::Light_Rain)
        } else if str_eq(text, "Heavy_Rain") {
            Some(WeatherCode::Heavy_Rain)
        } else if str_eq(text, "Snow") {
            Some(WeatherCode::Snow)
        } else if str_eq(text, "Flurries") {
            Some(WeatherCode::Flurries)
        } else if str_eq(text, "Light_Snow") {
            Some(WeatherCode::Light_Snow)
        } else if str_eq(text, "Heavy_Snow") {
            Some(WeatherCode::Heavy_Snow)
        } else if str_eq(text, "Freezing_Drizzle") {
            Some(WeatherCode::Freezing_Drizzle)
        } else if str_eq(text, "Freezing_Rain") {
            Some(WeatherCode::Freezing_Rain)
        } else if str_eq(text, "Light_Freezing_Rain") {
            Some(WeatherCode::Light_Freezing_Rain)
        } else if str_eq(text, "Heavy_Freezing_Rain") {
            Some(WeatherCode::Heavy_Freezing_Rain)
        } else if str_eq(text, "Ice_Pellets") {
            Some(WeatherCode::Ice_Pellets)
        } else if str_eq(text, "Heavy_Ice_Pellets") {
            Some(WeatherCode::Heavy_Ice_Pellets)
        } else if str_eq(text, "Light_Ice_Pellets") {
            Some(WeatherCode::Light_Ice_Pellets)
        } else if str_eq(text, "Thunderstorm") {
            Some(WeatherCode::Thunderstorm)
        } else {
            None
        }
    }

    /// Reads a value of a text column.
    pub fn from_sql(raw: &[u8]) -> (found: Option<WeatherCode>)
        ensures
            found == Self::spec_from_sql(raw@),
    {
        if bytes_spell(raw, "Unknown") {
            Some(WeatherCode::Unknown)
        } else if bytes_spell(raw, "Clear") {
            Some(WeatherCode::Clear)
        } else if bytes_spell(raw, "Cloudy") {
            Some(WeatherCode::Cloudy)
        } else if bytes_spell(raw, "Mostly_Clear") {
            Some(WeatherCode::Mostly_Clear)
        } else if bytes_spell(raw, "Partly_Cloudy") {
            Some(WeatherCode::Partly_Cloudy)
        } else if bytes_spell(raw, "Mostly_Cloudy") {
            Some(WeatherCode::Mostly_Cloudy)
        } else if bytes_spell(raw, "Fog") {
            Some(WeatherCode::Fog)
        } else if bytes_spell(raw, "Light_Fog") {
            Some(WeatherCode::Light_Fog)
        } else if bytes_spell(raw, "Light_Wind") {
            Some(WeatherCode::Light_Wind)
        } else if bytes_spell(raw, "Wind") {
            Some(WeatherCode::Wind)
        } else if bytes_spell(raw, "Strong_Wind") {
            Some(WeatherCode::Strong_Wind)
        } else if bytes_spell(raw, "Drizzle") {
            Some(WeatherCode::Drizzle)
        } else if bytes_spell(raw, "Rain") {
            Some(WeatherCode::Rain)
        } else if bytes_spell(raw, "Light_Rain") {
            Some(WeatherCode::Light_Rain)
        } else if bytes_spell(raw, "Heavy_Rain") {
            Some(WeatherCode::Heavy_Rain)
        } else if bytes_spell(raw, "Snow") {
            Some(WeatherCode::Snow)
        } else if bytes_spell(raw, "Flurries") {
            Some(WeatherCode::Flurries)
        } else if bytes_spell(raw, "Light_Snow") {
            Some(WeatherCode::Light_Snow)
        } else if bytes_spell(raw, "Heavy_Snow") {
            Some(WeatherCode::Heavy_Snow)
        } else if bytes_spell(raw, "Freezing_Drizzle") {
            Some(WeatherCode::Freezing_Drizzle)
        } else if bytes_spell(raw, "Freezing_Rain") {
            Some(WeatherCode::Freezing_Rain)
        } else if bytes_spell(raw, "Light_Freezing_Rain") {
            Some(WeatherCode::Light_Freezing_Rain)
        } else if bytes_spell(raw, "Heavy_Freezing_Rain") {
            Some(WeatherCode::Heavy_Freezing_Rain)
        } else if bytes_spell(raw, "Ice_Pellets") {
            Some(WeatherCode::Ice_Pellets)
        } else if bytes_spell(raw, "Heavy_Ice_Pellets") {
            Some(WeatherCode::Heavy_Ice_Pellets)
        } else if bytes_spell(raw, "Light_Ice_Pellets") {
            Some(WeatherCode::Light_Ice_Pellets)
        } else if bytes_spell(raw, "Thunderstorm") {
            Some(WeatherCode::Thunderstorm)
        } else {
            None
        }
    }

    /// Every condition is found again from its number.
    pub proof fn lemma_code_round_trip(self)
        ensures
            Self::spec_from_code(self.spec_code()) == Some(self),
    {
    }

    /// A number stands for at most one condition, which gives the number back.
    pub proof fn lemma_from_code_inverts(code: i16)
        ensures
            Self::spec_from_code(code) matches Some(found) ==> found.spec_code() == code,
    {
    }

    /// Every condition is found again from its name: no two names are alike.
    pub proof fn lemma_name_round_trip(self)
        ensures
            Self::spec_from_name(self.spec_name()) == Some(self),
    {
        reveal_strlit("Unknown");
        reveal_strlit("Clear");
        reveal_strlit("Cloudy");
        reveal_strlit("Mostly_Clear");
        reveal_strlit("Partly_Cloudy");
        reveal_strlit("Mostly_Cloudy");
        reveal_strlit("Fog");
        reveal_strlit("Light_Fog");
        reveal_strlit("Light_Wind");
        reveal_strlit("Wind");
        reveal_strlit("Strong_Wind");
        reveal_strlit("Drizzle");
        reveal_strlit("Rain");
        reveal_strlit("Light_Rain");
        reveal_strlit("Heavy_Rain");
        reveal_strlit("Snow");
        reveal_strlit("Flurries");
        reveal_strlit("Light_Snow");
        reveal_strlit("Heavy_Snow");
        reveal_strlit("Freezing_Drizzle");
        reveal_strlit("Freezing_Rain");
        reveal_strlit("Light_Freezing_Rain");
        reveal_strlit("Heavy_Freezing_Rain");
        reveal_strlit("Ice_Pellets");
        reveal_strlit("Heavy_Ice_Pellets");
        reveal_strlit("Light_Ice_Pellets");
        reveal_strlit("Thunderstorm");
        assert("Unknown"@.len() == 7);
        assert("Clear"@.len() == 5);
        assert("Cloudy"@.len() == 6);
        assert("Mostly_Clear"@.len() == 12);
        assert("Partly_Cloudy"@.len() == 13);
        assert("Mostly_Cloudy"@.len() == 13);
        assert("Fog"@.len() == 3);
        assert("Light_Fog"@.len() == 9);
        assert("Light_Wind"@.len() == 10);
        assert("Wind"@.len() == 4);
        assert("Strong_Wind"@.len() == 11);
        assert("Drizzle"@.len() == 7);
        assert("Rain"@.len() == 4);
        assert("Light_Rain"@.len() == 10);
        assert("Heavy_Rain"@.len() == 10);
        assert("Snow"@.len() == 4);
        assert("Flurries"@.len() == 8);
        assert("Light_Snow"@.len() == 10);
        assert("Heavy_Snow"@.len() == 10);
        assert("Freezing_Drizzle"@.len() == 16);
        assert("Freezing_Rain"@.len() == 13);
        assert("Light_Freezing_Rain"@.len() == 19);
        assert("Heavy_Freezing_Rain"@.len() == 19);
        assert("Ice_Pellets"@.len() == 11);
        assert("Heavy_Ice_Pellets"@.len() == 17);
        assert("Light_Ice_Pellets"@.len() == 17);
        assert("Thunderstorm"@.len() == 12);
        assert("Wind"@[0] == 'W');
        assert("Rain"@[0] == 'R');
        assert("Snow"@[0] == 'S');
        assert("Unknown"@[0] == 'U');
        assert("Drizzle"@[0] == 'D');
        assert("Light_Wind"@[6] == 'W');
        assert("Light_Wind"@[0] == 'L');
        assert("Light_Rain"@[6] == 'R');
        assert("Light_Rain"@[0] == 'L');
        assert("Heavy_Rain"@[6] == 'R');
        assert("Heavy_Rain"@[0] == 'H');
        assert("Light_Snow"@[6] == 'S');
        assert("Light_Snow"@[0] == 'L');
        assert("Heavy_Snow"@[6] == 'S');
        assert("Heavy_Snow"@[0] == 'H');
        assert("Strong_Wind"@[0] == 'S');
        assert("Ice_Pellets"@[0] == 'I');
        assert("Mostly_Clear"@[0] == 'M');
        assert("Thunderstorm"@[0] == 'T');
        assert("Partly_Cloudy"@[0] == 'P');
        assert("Mostly_Cloudy"@[0] == 'M');
        assert("Freezing_Rain"@[0] == 'F');
        assert("Heavy_Ice_Pellets"@[0] == 'H');
        assert("Light_Ice_Pellets"@[0] == 'L');
        assert("Light_Freezing_Rain"@[0] == 'L');
        assert("Heavy_Freezing_Rain"@[0] == 'H');
    }

    /// A text spells at most one condition, whose name is the text.
    pub proof fn lemma_from_name_inverts(text: Seq<char>)
        ensures
            Self::spec_from_name(text) matches Some(found) ==> found.spec_name() == text,
    {
    }

    /// What is read back from a text column is what `name` wrote there.
    pub proof fn lemma_sql_round_trip(self)
        ensures
            Self::spec_from_sql(vstd::utf8::encode_utf8(self.spec_name())) == Some(self),
    {
        self.lemma_name_round_trip();
        vstd::utf8::encode_utf8_valid_utf8(self.spec_name());
        vstd::utf8::encode_utf8_decode_utf8(self.spec_name());
    }
}

impl Default for WeatherCode {
    fn default() -> (first: WeatherCode)
        ensures
            first == WeatherCode::Unknown,
    {
        WeatherCode::Unknown
    }
}

} // verus!
