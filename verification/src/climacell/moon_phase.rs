use crate::text::{bytes_spell, str_eq};
use vstd::prelude::*;
use vstd::utf8::{decode_utf8, valid_utf8};

verus! {

/// The phase of the moon on a forecast day.
#[allow(non_camel_case_types)]
#[derive(Clone, Copy, Debug, PartialEq, Eq, Structural)]
pub enum MoonPhase {
    New,
    Waxing_Crescent,
    First_Quarter,
    Waxing_Gibbous,
    Full,
    Waning_Gibbous,
    Third_Quarter,
    Waning_Crescent,
}

impl MoonPhase {
    /// The number that the provider sends for this phase.
    pub open spec fn spec_code(self) -> u8 {
        match self {
            MoonPhase::New => 0,
            MoonPhase::Waxing_Crescent => 1,
            MoonPhase::First_Quarter => 2,
            MoonPhase::Waxing_Gibbous => 3,
            MoonPhase::Full => 4,
            MoonPhase::Waning_Gibbous => 5,
            MoonPhase::Third_Quarter => 6,
            MoonPhase::Waning_Crescent => 7,
        }
    }

    /// The phase that a number of the provider stands for, if any.
    pub open spec fn spec_from_code(code: u8) -> Option<MoonPhase> {
        if code == 0 {
            Some(MoonPhase::New)
        } else if code == 1 {
            Some(MoonPhase::Waxing_Crescent)
        } else if code == 2 {
            Some(MoonPhase::First_Quarter)
        } else if code == 3 {
            Some(MoonPhase::Waxing_Gibbous)
        } else if code == 4 {
            Some(MoonPhase::Full)
        } else if code == 5 {
            Some(MoonPhase::Waning_Gibbous)
        } else if code == 6 {
            Some(MoonPhase::Third_Quarter)
        } else if code == 7 {
            Some(MoonPhase::Waning_Crescent)
        } else {
            None
        }
    }

    /// The name under which this phase is stored and served.
    pub open spec fn spec_name(self) -> Seq<char> {
        match self {
            MoonPhase::New => "New"@,
            MoonPhase::Waxing_Crescent => "Waxing_Crescent"@,
            MoonPhase::First_Quarter => "First_Quarter"@,
            MoonPhase::Waxing_Gibbous => "Waxing_Gibbous"@,
            MoonPhase::Full => "Full"@,
            MoonPhase::Waning_Gibbous => "Waning_Gibbous"@,
            MoonPhase::Third_Quarter => "Third_Quarter"@,
            MoonPhase::Waning_Crescent => "Waning_Crescent"@,
        }
    }

    /// The phase that a name spells, if any. Names are matched exactly.
    pub open spec fn spec_from_name(text: Seq<char>) -> Option<MoonPhase> {
        if text == "New"@ {
            Some(MoonPhase::New)
        } else if text == "Waxing_Crescent"@ {
            Some(MoonPhase::Waxing_Crescent)
        } else if text == "First_Quarter"@ {
            Some(MoonPhase::First_Quarter)
        } else if text == "Waxing_Gibbous"@ {
            Some(MoonPhase::Waxing_Gibbous)
        } else if text == "Full"@ {
            Some(MoonPhase::Full)
        } else if text == "Waning_Gibbous"@ {
            Some(MoonPhase::Waning_Gibbous)
        } else if text == "Third_Quarter"@ {
            Some(MoonPhase::Third_Quarter)
        } else if text == "Waning_Crescent"@ {
            Some(MoonPhase::Waning_Crescent)
        } else {
            None
        }
    }

    /// The phase that a stored text value spells: the bytes must be the
    /// UTF-8 encoding of a name.
    pub open spec fn spec_from_sql(raw: Seq<u8>) -> Option<MoonPhase> {
        if valid_utf8(raw) {
            Self::spec_from_name(decode_utf8(raw))
        } else {
            None
        }
    }

    pub fn code(self) -> (code: u8)
        ensures
            code == self.spec_code(),
    {
        match self {
            MoonPhase::New => 0,
            MoonPhase::Waxing_Crescent => 1,
            MoonPhase::First_Quarter => 2,
            MoonPhase::Waxing_Gibbous => 3,
            MoonPhase::Full => 4,
            MoonPhase::Waning_Gibbous => 5,
            MoonPhase::Third_Quarter => 6,
            MoonPhase::Waning_Crescent => 7,
        }
    }

    pub fn from_code(code: u8) -> (found: Option<MoonPhase>)
        ensures
            found == Self::spec_from_code(code),
    {
        match code {
            0 => Some(MoonPhase::New),
            1 => Some(MoonPhase::Waxing_Crescent),
            2 => Some(MoonPhase::First_Quarter),
            3 => Some(MoonPhase::Waxing_Gibbous),
            4 => Some(MoonPhase::Full),
            5 => Some(MoonPhase::Waning_Gibbous),
            6 => Some(MoonPhase::Third_Quarter),
            7 => Some(MoonPhase::Waning_Crescent),
            _ => None,
        }
    }

    pub fn name(self) -> (name: &'static str)
        ensures
            name@ == self.spec_name(),
    {
        match self {
            MoonPhase::New => "New",
            MoonPhase::Waxing_Crescent => "Waxing_Crescent",
            MoonPhase::First_Quarter => "First_Quarter",
            MoonPhase::Waxing_Gibbous => "Waxing_Gibbous",
            MoonPhase::Full => "Full",
            MoonPhase::Waning_Gibbous => "Waning_Gibbous",
            MoonPhase::Third_Quarter => "Third_Quarter",
            MoonPhase::Waning_Crescent => "Waning_Crescent",
        }
    }

    pub fn from_name(text: &str) -> (found: Option<MoonPhase>)
        ensures
            found == Self::spec_from_name(text@),
    {
        if str_eq(text, "New") {
            Some(MoonPhase::New)
        } else if str_eq(text, "Waxing_Crescent") {
            Some(MoonPhase::Waxing_Crescent)
        } else if str_eq(text, "First_Quarter") {
            Some(MoonPhase::First_Quarter)
        } else if str_eq(text, "Waxing_Gibbous") {
            Some(MoonPhase::Waxing_Gibbous)
        } else if str_eq(text, "Full") {
            Some(MoonPhase::Full)
        } else if str_eq(text, "Waning_Gibbous") {
            Some(MoonPhase::Waning_Gibbous)
        } else if str_eq(text, "Third_Quarter") {
            Some(MoonPhase::Third_Quarter)
        } else if str_eq(text, "Waning_Crescent") {
            Some(MoonPhase::Waning_Crescent)
        } else {
            None
        }
    }

    /// Reads a value of a text column.
    pub fn from_sql(raw: &[u8]) -> (found: Option<MoonPhase>)
        ensures
            found == Self::spec_from_sql(raw@),
    {
        if bytes_spell(raw, "New") {
            Some(MoonPhase::New)
        } else if bytes_spell(raw, "Waxing_Crescent") {
            Some(MoonPhase::Waxing_Crescent)
        } else if bytes_spell(raw, "First_Quarter") {
            Some(MoonPhase::First_Quarter)
        } else if bytes_spell(raw, "Waxing_Gibbous") {
            Some(MoonPhase::Waxing_Gibbous)
        } else if bytes_spell(raw, "Full") {
            Some(MoonPhase::Full)
        } else if bytes_spell(raw, "Waning_Gibbous") {
            Some(MoonPhase::Waning_Gibbous)
        } else if bytes_spell(raw, "Third_Quarter") {
            Some(MoonPhase::Third_Quarter)
        } else if bytes_spell(raw, "Waning_Crescent") {
            Some(MoonPhase::Waning_Crescent)
        } else {
            None
        }
    }

    /// Every phase is found again from its number.
    pub proof fn lemma_code_round_trip(self)
        ensures
            Self::spec_from_code(self.spec_code()) == Some(self),
    {
    }

    /// A number stands for at most one phase, which gives the number back.
    pub proof fn lemma_from_code_inverts(code: u8)
        ensures
            Self::spec_from_code(code) matches Some(found) ==> found.spec_code() == code,
    {
    }

    /// Every phase is found again from its name: no two names are alike.
    pub proof fn lemma_name_round_trip(self)
        ensures
            Self::spec_from_name(self.spec_name()) == Some(self),
    {
        reveal_strlit("New");
        reveal_strlit("Waxing_Crescent");
        reveal_strlit("First_Quarter");
        reveal_strlit("Waxing_Gibbous");
        reveal_strlit("Full");
        reveal_strlit("Waning_Gibbous");
        reveal_strlit("Third_Quarter");
        reveal_strlit("Waning_Crescent");
        assert("New"@.len() == 3);
        assert("Waxing_Crescent"@.len() == 15);
        assert("First_Quarter"@.len() == 13);
        assert("Waxing_Gibbous"@.len() == 14);
        assert("Full"@.len() == 4);
        assert("Waning_Gibbous"@.len() == 14);
        assert("Third_Quarter"@.len() == 13);
        assert("Waning_Crescent"@.len() == 15);
        assert("First_Quarter"@[0] == 'F');
        assert("Third_Quarter"@[0] == 'T');
        assert("Waxing_Gibbous"@[2] == 'x');
        assert("Waning_Gibbous"@[2] == 'n');
        assert("Waxing_Crescent"@[2] == 'x');
        assert("Waning_Crescent"@[2] == 'n');
    }

    /// A text spells at most one phase, whose name is the text.
    pub proof fn lemma_from_name_inverts(text: Seq<char>)
        ensures
            Self::spec_from_name(text) matches Some(found) ==> found.spec_name() == text,
    {
    }

    /// What is read back from a text column is what `name` wrote there.
    pub proof fn lemma_sql_round_trip(self)
        ensures
            Self::spec_from_sql(vstd::utf8::encode_utf8(self.spec_name())) == Some(self),
    {
        self.lemma_name_round_trip();
        vstd::utf8::encode_utf8_valid_utf8(self.spec_name());
        vstd::utf8::encode_utf8_decode_utf8(self.spec_name());
    }
}

impl Default for MoonPhase {
    fn default() -> (first: MoonPhase)
        ensures
            first == MoonPhase::New,
    {
        MoonPhase::New
    }
}

} // verus!
