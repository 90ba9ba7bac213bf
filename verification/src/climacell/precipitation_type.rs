use crate::text::{bytes_spell, str_eq};
use vstd::prelude::*;
use vstd::utf8::{decode_utf8, valid_utf8};

verus! {

/// The kind of precipitation that a forecast interval expects.
#[allow(non_camel_case_types)]
#[derive(Clone, Copy, Debug, PartialEq, Eq, Structural)]
pub enum PrecipitationType {
    NA,
    Rain,
    Snow,
    Freezing_Rain,
    Ice_Pellets,
}

impl PrecipitationType {
    /// The number that the provider sends for this kind.
    pub open spec fn spec_code(self) -> u8 {
        match self {
            PrecipitationType::NA => 0,
            PrecipitationType::Rain => 1,
            PrecipitationType::Snow => 2,
            PrecipitationType::Freezing_Rain => 3,
            PrecipitationType::Ice_Pellets => 4,
        }
    }

    /// The kind that a number of the provider stands for, if any.
    pub open spec fn spec_from_code(code: u8) -> Option<PrecipitationType> {
        if code == 0 {
            Some(PrecipitationType::NA)
        } else if code == 1 {
            Some(PrecipitationType::Rain)
        } else if code == 2 {
            Some(PrecipitationType::Snow)
        } else if code == 3 {
            Some(PrecipitationType::Freezing_Rain)
        } else if code == 4 {
            Some(PrecipitationType::Ice_Pellets)
        } else {
            None
        }
    }

    /// The name under which this kind is stored and served.
    pub open spec fn spec_name(self) -> Seq<char> {
        match self {
            PrecipitationType::NA => "NA"@,
            PrecipitationType::Rain => "Rain"@,
            PrecipitationType::Snow => "Snow"@,
            PrecipitationType::Freezing_Rain => "Freezing_Rain"@,
            PrecipitationType::Ice_Pellets => "Ice_Pellets"@,
        }
    }

    /// The kind that a name spells, if any. Names are matched exactly.
    pub open spec fn spec_from_name(text: Seq<char>) -> Option<PrecipitationType> {
        if text == "NA"@ {
            Some(PrecipitationType::NA)
        } else if text == "Rain"@ {
            Some(PrecipitationType::Rain)
        } else if text == "Snow"@ {
            Some(PrecipitationType::Snow)
        } else if text == "Freezing_Rain"@ {
            Some(PrecipitationType::Freezing_Rain)
        } else if text == "Ice_Pellets"@ {
            Some(PrecipitationType::Ice_Pellets)
        } else {
            None
        }
    }

    /// The kind that a stored text value spells: the bytes must be the
    /// UTF-8 encoding of a name.
    pub open spec fn spec_from_sql(raw: Seq<u8>) -> Option<PrecipitationType> {
        if valid_utf8(raw) {
            Self::spec_from_name(decode_utf8(raw))
        } else {
            None
        }
    }

    pub fn code(self) -> (code: u8)
        ensures
            code == self.spec_code(),
    {
        match self {
            PrecipitationType::NA => 0,
            PrecipitationType::Rain => 1,
            PrecipitationType::Snow => 2,
            PrecipitationType::Freezing_Rain => 3,
            PrecipitationType::Ice_Pellets => 4,
        }
    }

    pub fn from_code(code: u8) -> (found: Option<PrecipitationType>)
        ensures
            found == Self::spec_from_code(code),
    {
        match code {
            0 => Some(PrecipitationType::NA),
            1 => Some(PrecipitationType::Rain),
            2 => Some(PrecipitationType::Snow),
            3 => Some(PrecipitationType::Freezing_Rain),
            4 => Some(PrecipitationType::Ice_Pellets),
            _ => None,
        }
    }

    pub fn name(self) -> (name: &'static str)
        ensures
            name@ == self.spec_name(),
    {
        match self {
            PrecipitationType::NA => "NA",
            PrecipitationType::Rain => "Rain",
            PrecipitationType::Snow => "Snow",
            PrecipitationType::Freezing_Rain => "Freezing_Rain",
            PrecipitationType::Ice_Pellets => "Ice_Pellets",
        }
    }

    pub fn from_name(text: &str) -> (found: Option<PrecipitationType>)
        ensures
            found == Self::spec_from_name(text@),
    {
        if str_eq(text, "NA") {
            Some(PrecipitationType::NA)
        } else if str_eq(text, "Rain") {
            Some(PrecipitationType::Rain)
        } else if str_eq(text, "Snow") {
            Some(PrecipitationType::Snow)
        } else if str_eq(text, "Freezing_Rain") {
            Some(PrecipitationType::Freezing_Rain)
        } else if str_eq(text, "Ice_Pellets") {
            Some(PrecipitationType::Ice_Pellets)
        } else {
            None
        }
    }

    /// Reads a value of a text column.
    pub fn from_sql(raw: &[u8]) -> (found: Option<PrecipitationType>)
        ensures
            found == Self::spec_from_sql(raw@),
    {
        if bytes_spell(raw, "NA") {
            Some(PrecipitationType::NA)
        } else if bytes_spell(raw, "Rain") {
            Some(PrecipitationType::Rain)
        } else if bytes_spell(raw, "Snow") {
            Some(PrecipitationType::Snow)
        } else if bytes_spell(raw, "Freezing_Rain") {
            Some(PrecipitationType::Freezing_Rain)
        } else if bytes_spell(raw, "Ice_Pellets") {
            Some(PrecipitationType::Ice_Pellets)
        } else {
            None
        }
    }

    /// Every kind is found again from its number.
    pub proof fn lemma_code_round_trip(self)
        ensures
            Self::spec_from_code(self.spec_code()) == Some(self),
    {
    }

    /// A number stands for at most one kind, which gives the number back.
    pub proof fn lemma_from_code_inverts(code: u8)
        ensures
            Self::spec_from_code(code) matches Some(found) ==> found.spec_code() == code,
    {
    }

    /// Every kind is found again from its name: no two names are alike.
    pub proof fn lemma_name_round_trip(self)
        ensures
            Self::spec_from_name(self.spec_name()) == Some(self),
    {
        reveal_strlit("NA");
        reveal_strlit("Rain");
        reveal_strlit("Snow");
        reveal_strlit("Freezing_Rain");
        reveal_strlit("Ice_Pellets");
        assert("NA"@.len() == 2);
        assert("Rain"@.len() == 4);
        assert("Snow"@.len() == 4);
        assert("Freezing_Rain"@.len() == 13);
        assert("Ice_Pellets"@.len() == 11);
        assert("Rain"@[0] == 'R');
        assert("Snow"@[0] == 'S');
    }

    /// A text spells at most one kind, whose name is the text.
    pub proof fn lemma_from_name_inverts(text: Seq<char>)
        ensures
            Self::spec_from_name(text) matches Some(found) ==> found.spec_name() == text,
    {
    }

    /// What is read back from a text column is what `name` wrote there.
    pub proof fn lemma_sql_round_trip(self)
        ensures
            Self::spec_from_sql(vstd::utf8::encode_utf8(self.spec_name())) == Some(self),
    {
        self.lemma_name_round_trip();
        vstd::utf8::encode_utf8_valid_utf8(self.spec_name());
        vstd::utf8::encode_utf8_decode_utf8(self.spec_name());
    }
}

impl Default for PrecipitationType {
    fn default() -> (first: PrecipitationType)
        ensures
            first == PrecipitationType::NA,
    {
        PrecipitationType::NA
    }
}

} // verus!
