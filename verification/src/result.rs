//! The result model: the rows that a query gave, with the distinction
//! between no row and at least one row, and the formats they are written in.

use crate::text::{str_eq, trim, trimmed};
use crate::value::{CanonicalValue, JsonValue};
use vstd::prelude::*;

verus! {

/// The message for a format name that is neither `csv` nor `json`.
pub const INVALID_FORMAT: &'static str = "invalid format provided; allowed values: [csv, json]";

/// The message for an empty list of rows.
pub const EMPTY_LIST: &'static str = "list is empty";

/// The format that results are written in.
#[derive(Debug, Clone, Copy, PartialEq, Eq, Structural)]
pub enum ResultsFormat {
    Csv,
    Json,
}

/// The format that the console writes results in.
#[derive(Debug, Clone, Copy, PartialEq, Eq, Structural)]
pub enum OutputFormat {
    Csv,
    Json,
}

/// Whether `s`, trimmed, names the csv format (`Some(true)`), the json format
/// (`Some(false)`) or neither.
pub open spec fn names_csv(s: Seq<char>) -> Option<bool> {
    if trimmed(s) == "csv"@ {
        Some(true)
    } else if trimmed(s) == "json"@ {
        Some(false)
    } else {
        None
    }
}

impl ResultsFormat {
    /// The file extension of the format, which is also its name.
    pub open spec fn spec_extension(self) -> Seq<char> {
        match self {
            ResultsFormat::Csv => "csv"@,
            ResultsFormat::Json => "json"@,
        }
    }

    /// The format that `s` names.
    pub open spec fn parsed(s: Seq<char>) -> Option<ResultsFormat> {
        match names_csv(s) {
            Some(true) => Some(ResultsFormat::Csv),
            Some(false) => Some(ResultsFormat::Json),
            None => None,
        }
    }

    /// The file extension of the format, which is also its name.
    pub fn extension(&self) -> (r: &'static str)
        ensures
            r@ == self.spec_extension(),
    {
        match self {
            ResultsFormat::Csv => "csv",
            ResultsFormat::Json => "json",
        }
    }

    /// The format that `s` names, whitespace around the name aside.
    pub fn from_str(s: &str) -> (r: Result<ResultsFormat, &'static str>)
        ensures
            match ResultsFormat::parsed(s@) {
                Some(f) => r == Ok::<ResultsFormat, &'static str>(f),
                None => r matches Err(e) && e@ == INVALID_FORMAT@,
            },
    {
        let t = trim(s);
        if str_eq(t, "csv") {
            Ok(ResultsFormat::Csv)
        } else if str_eq(t, "json") {
            Ok(ResultsFormat::Json)
        } else {
            Err(INVALID_FORMAT)
        }
    }

    /// The name of the format.
    pub fn to_text(&self) -> (r: String)
        ensures
            r@ == self.spec_extension(),
    {
        String::from_str(self.extension())
    }
}

impl OutputFormat {
    /// The file extension of the format, which is also its name.
    pub open spec fn spec_extension(self) -> Seq<char> {
        match self {
            OutputFormat::Csv => "csv"@,
            OutputFormat::Json => "json"@,
        }
    }

    /// The format that `s` names.
    pub open spec fn parsed(s: Seq<char>) -> Option<OutputFormat> {
        match names_csv(s) {
            Some(true) => Some(OutputFormat::Csv),
            Some(false) => Some(OutputFormat::Json),
            None => None,
        }
    }

    /// The file extension of the format, which is also its name.
    pub fn extension(&self) -> (r: &'static str)
        ensures
            r@ == self.spec_extension(),
    {
        match self {
            OutputFormat::Csv => "csv",
            OutputFormat::Json => "json",
        }
    }

    /// The format that `s` names, whitespace around the name aside.
    pub fn from_str(s: &str) -> (r: Result<OutputFormat, &'static str>)
        ensures
            match OutputFormat::parsed(s@) {
                Some(f) => r == Ok::<OutputFormat, &'static str>(f),
                None => r matches Err(e) && e@ == INVALID_FORMAT@,
            },
    {
        let t = trim(s);
        if str_eq(t, "csv") {
            Ok(OutputFormat::Csv)
        } else if str_eq(t, "json") {
            Ok(OutputFormat::Json)
        } else {
            Err(INVALID_FORMAT)
        }
    }

    /// The name of the format.
    pub fn to_text(&self) -> (r: String)
        ensures
            r@ == self.spec_extension(),
    {
        String::from_str(self.extension())
    }
}

/// What a list of values is.
pub open spec fn values_model(values: Seq<CanonicalValue>) -> Seq<JsonValue> {
    Seq::new(values.len(), |i: int| values[i]@)
}

/// The rows of a result that has at least one.
#[derive(Debug, PartialEq)]
pub struct NonEmptyResults(Vec<CanonicalValue>);

impl NonEmptyResults {
    #[verifier::type_invariant]
    spec fn inv(self) -> bool {
        self.0.len() >= 1
    }

    /// The rows, in the order in which they were given.
    pub closed spec fn rows(&self) -> Seq<CanonicalValue> {
        self.0@
    }

    /// The rows as they are, `Err` where there is none.
    pub fn try_from(value: Vec<CanonicalValue>) -> (r: Result<NonEmptyResults, &'static str>)
        ensures
            value.len() == 0 ==> (r matches Err(e) && e@ == EMPTY_LIST@),
            value.len() >= 1 ==> (r matches Ok(results) && results.rows() == value@),
    {
        if value.len() == 0 {
            return Err(EMPTY_LIST);
        }
        Ok(NonEmptyResults(value))
    }

    /// The rows: there is at least one.
    pub fn list(&self) -> (r: &[CanonicalValue])
        ensures
            r@ == self.rows(),
            r@.len() >= 1,
    {
        proof {
            use_type_invariant(self);
        }
        self.0.as_slice()
    }

    /// The first row.
    pub fn first(&self) -> (r: &CanonicalValue)
        ensures
            self.rows().len() >= 1,
            *r == self.rows()[0],
    {
        proof {
            use_type_invariant(self);
        }
        &self.0[0]
    }
}

impl View for NonEmptyResults {
    type V = Seq<JsonValue>;

    open spec fn view(&self) -> Seq<JsonValue> {
        values_model(self.rows())
    }
}

/// The outcome of a query: no row, or at least one.
#[derive(Debug, PartialEq)]
pub enum QueryResults {
    Empty,
    NonEmpty(NonEmptyResults),
}

impl QueryResults {
    /// The rows as they are: `Empty` where there is none, `NonEmpty` else.
    pub fn from(value: Vec<CanonicalValue>) -> (r: QueryResults)
        ensures
            value.len() == 0 <==> r is Empty,
            r matches QueryResults::NonEmpty(results) ==> results.rows() == value@,
    {
        if value.len() == 0 {
            return QueryResults::Empty;
        }
        QueryResults::NonEmpty(NonEmptyResults(value))
    }
}

impl View for QueryResults {
    type V = Seq<JsonValue>;

    open spec fn view(&self) -> Seq<JsonValue> {
        match self {
            QueryResults::Empty => Seq::empty(),
            QueryResults::NonEmpty(results) => results@,
        }
    }
}

} // verus!
