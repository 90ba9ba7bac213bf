use crate::forecast_db::HistoricalSearchType;
use vstd::prelude::*;
use vstd::string::StringExecFns;

verus! {

/// What a request for past observations asks of the store, or why it asks
/// nothing.
#[derive(Clone, Debug, PartialEq, Eq)]
pub enum HistoricalRequest {
    /// The observations of one day.
    Day(String),
    /// The observations from the first day to the second.
    Range(String, String),
    /// A parameter is missing; the text says which, and goes back to the
    /// client as a bad request.
    Missing(String),
}

/// A request as a value.
pub enum HistoricalRequestView {
    Day(Seq<char>),
    Range(Seq<char>, Seq<char>),
    Missing(Seq<char>),
}

impl View for HistoricalRequest {
    type V = HistoricalRequestView;

    open spec fn view(&self) -> HistoricalRequestView {
        match self {
            HistoricalRequest::Day(day) => HistoricalRequestView::Day(day@),
            HistoricalRequest::Range(day1, day2) => HistoricalRequestView::Range(day1@, day2@),
            HistoricalRequest::Missing(what) => HistoricalRequestView::Missing(what@),
        }
    }
}

/// A parameter of a request as a value.
pub open spec fn parameter_view(parameter: Option<&str>) -> Option<Seq<char>> {
    match parameter {
        Some(text) => Some(text@),
        None => None,
    }
}

/// A search by day needs `day`; a search by range needs `day1` and `day2`,
/// and names the first of them that is missing.
pub open spec fn spec_get_hist(
    search_type: HistoricalSearchType,
    day: Option<Seq<char>>,
    day1: Option<Seq<char>>,
    day2: Option<Seq<char>>,
) -> HistoricalRequestView {
    match search_type {
        HistoricalSearchType::Daily => match day {
            Some(day) => HistoricalRequestView::Day(day),
            None => HistoricalRequestView::Missing("missing day"@),
        },
        HistoricalSearchType::TimeRange => match (day1, day2) {
            (None, _) => HistoricalRequestView::Missing("missing day1"@),
            (Some(_), None) => HistoricalRequestView::Missing("missing day2"@),
            (Some(day1), Some(day2)) => HistoricalRequestView::Range(day1, day2),
        },
    }
}

/// Reads a request for past observations from its parameters.
pub fn get_hist(
    search_type: HistoricalSearchType,
    day: Option<&str>,
    day1: Option<&str>,
    day2: Option<&str>,
) -> (request: HistoricalRequest)
    ensures
        request@ == spec_get_hist(
            search_type,
            parameter_view(day),
            parameter_view(day1),
            parameter_view(day2),
        ),
{
    match search_type {
        HistoricalSearchType::Daily => match day {
            Some(day) => HistoricalRequest::Day(String::from_str(day)),
            None => HistoricalRequest::Missing(String::from_str("missing day")),
        },
        HistoricalSearchType::TimeRange => {
            let day1 = match day1 {
                Some(day1) => day1,
                None => {
                    return HistoricalRequest::Missing(String::from_str("missing day1"));
                },
            };
            let day2 = match day2 {
                Some(day2) => day2,
                None => {
                    return HistoricalRequest::Missing(String::from_str("missing day2"));
                },
            };
            HistoricalRequest::Range(String::from_str(day1), String::from_str(day2))
        },
    }
}

/// The first value that a request gives for the parameter, or the text
/// `error` where it gives none.
pub open spec fn spec_echo(values: Option<Seq<String>>) -> Seq<char> {
    match values {
        Some(values) => if values.len() > 0 {
            values[0]@
        } else {
            "error"@
        },
        None => "error"@,
    }
}

pub fn echo(values: Option<&[String]>) -> (reply: String)
    ensures
        reply@ == spec_echo(
            match values {
                Some(values) => Some(values@),
                None => None,
            },
        ),
{
    match values {
        Some(values) => {
            if values.len() > 0 {
                values[0].clone()
            } else {
                String::from_str("error")
            }
        },
        None => String::from_str("error"),
    }
}

} // verus!
