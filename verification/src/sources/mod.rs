//! The three sources of a measurement behind one contract.
//!
//! A source locates the measurement in what was read and hands it back as a
//! [`RawValue`]: the text as it stands. Turning that text into a number and
//! scaling it is left to the caller, who owns the floating-point arithmetic.

use vstd::prelude::*;

use crate::config::SourceConfig;
use crate::config::SourceType;
use crate::error::SourceError;
use crate::error::SourceFailure;
use crate::sources::csv_source::cell_located;
use crate::sources::csv_source::csv_source_of;
use crate::sources::csv_source::CsvSourceView;
use crate::sources::http_source::http_source_of;
use crate::sources::http_source::HttpSourceView;
use crate::sources::json_source::json_source_of;
use crate::sources::json_source::located;
use crate::sources::json_source::JsonSourceView;
use crate::text::join3;

pub mod csv_source;
pub mod http_source;
pub mod json_source;

pub use csv_source::CsvSource;
pub use http_source::HttpSource;
pub use json_source::JsonSource;

verus! {

/// Where a located measurement was found.
#[derive(Debug, Clone, Copy, PartialEq, Eq)]
pub enum RawKind {
    /// A cell of delimited text.
    Cell,
    /// A JSON number; the text is its decimal notation.
    Number,
    /// A JSON string.
    Text,
}

/// A located measurement before numeric conversion.
#[derive(Debug, Clone, PartialEq, Eq)]
pub struct RawValue {
    pub kind: RawKind,
    pub text: String,
}

/// The failure that is owed when the text of a located measurement, with
/// surrounding whitespace removed, is not a decimal number.
pub open spec fn rejection_of(kind: RawKind, text: Seq<char>) -> SourceFailure {
    match kind {
        RawKind::Cell => SourceFailure::InvalidValueType("'"@ + text + "'"@),
        RawKind::Number => SourceFailure::InvalidValueType(
            "Number "@ + text + " cannot be converted to a float"@,
        ),
        RawKind::Text => SourceFailure::InvalidValueType(
            "String '"@ + text + "' is not a valid number"@,
        ),
    }
}

impl RawValue {
    /// The failure to report when the text turns out not to be a number.
    pub fn rejection(&self) -> (e: SourceError)
        ensures
            e@ == rejection_of(self.kind, self.text@),
    {
        match self.kind {
            RawKind::Cell => SourceError::InvalidValueType(join3("'", self.text.as_str(), "'")),
            RawKind::Number => SourceError::InvalidValueType(
                join3("Number ", self.text.as_str(), " cannot be converted to a float"),
            ),
            RawKind::Text => SourceError::InvalidValueType(
                join3("String '", self.text.as_str(), "' is not a valid number"),
            ),
        }
    }
}

/// A located measurement, or the failure to locate one, by its characters.
pub open spec fn raw_view(r: Result<RawValue, SourceError>) -> Result<
    (RawKind, Seq<char>),
    SourceFailure,
> {
    match r {
        Ok(raw) => Ok((raw.kind, raw.text@)),
        Err(e) => Err(e@),
    }
}

/// One sampled measurement.
#[derive(Debug, Clone, PartialEq, Eq)]
pub struct Reading {
    /// The value in the reported unit, as the bit pattern of a double.
    pub value_bits: u64,
    pub unit: String,
    /// The capture instant, in milliseconds since the Unix epoch, UTC.
    pub timestamp_millis: i64,
    /// Which source produced the reading.
    pub source_id: String,
}

/// The source that is polled: one of the three kinds, fixed at startup.
#[derive(Debug, Clone)]
pub enum Source {
    Csv(CsvSource),
    Json(JsonSource),
    Http(HttpSource),
}

/// What a `Source` holds.
pub enum SourceView {
    Csv(CsvSourceView),
    Json(JsonSourceView),
    Http(HttpSourceView),
}

impl View for Source {
    type V = SourceView;

    open spec fn view(&self) -> SourceView {
        match self {
            Source::Csv(source) => SourceView::Csv(source@),
            Source::Json(source) => SourceView::Json(source@),
            Source::Http(source) => SourceView::Http(source@),
        }
    }
}

impl SourceView {
    /// The identifier under which the source appears in logs.
    pub open spec fn source_id(self) -> Seq<char> {
        match self {
            SourceView::Csv(source) => source.source_id,
            SourceView::Json(source) => source.source_id,
            SourceView::Http(source) => source.source_id,
        }
    }

    /// The unit label of the readings.
    pub open spec fn unit(self) -> Seq<char> {
        match self {
            SourceView::Csv(source) => source.unit,
            SourceView::Json(source) => source.unit,
            SourceView::Http(source) => source.unit,
        }
    }

    /// The scale factor, as the bit pattern of a double.
    pub open spec fn multiplier_bits(self) -> u64 {
        match self {
            SourceView::Csv(source) => source.multiplier_bits,
            SourceView::Json(source) => source.multiplier_bits,
            SourceView::Http(source) => source.multiplier_bits,
        }
    }

    /// The measurement that the source locates in a text: in the file's
    /// content, or in the body of the answer.
    pub open spec fn located(self, content: Seq<char>) -> Result<(RawKind, Seq<char>), SourceFailure> {
        match self {
            SourceView::Csv(source) => cell_located(content, source),
            SourceView::Json(source) => located(content, source.json_path),
            SourceView::Http(source) => located(content, source.json_path),
        }
    }
}

/// The source that a configuration describes, or why it describes none: the
/// section that the declared type names must be present and must itself
/// describe a source.
pub open spec fn source_of(config: SourceConfig) -> Result<SourceView, SourceFailure> {
    match config.source_type {
        SourceType::Csv => match config.csv {
            None => Err(SourceFailure::ParseError("Missing CSV configuration"@)),
            Some(csv) => match csv_source_of(csv) {
                Ok(source) => Ok(SourceView::Csv(source)),
                Err(failure) => Err(failure),
            },
        },
        SourceType::Json => match config.json {
            None => Err(SourceFailure::ParseError("Missing JSON configuration"@)),
            Some(json) => Ok(SourceView::Json(json_source_of(json))),
        },
        SourceType::Http => match config.http {
            None => Err(SourceFailure::ParseError("Missing HTTP configuration"@)),
            Some(http) => match http_source_of(http) {
                Ok(source) => Ok(SourceView::Http(source)),
                Err(failure) => Err(failure),
            },
        },
    }
}

/// Builds the source that a configuration describes.
pub fn create_source(config: &SourceConfig) -> (r: Result<Source, SourceError>)
    ensures
        match r {
            Ok(source) => source_of(*config) == Ok::<SourceView, SourceFailure>(source@),
            Err(e) => source_of(*config) == Err::<SourceView, SourceFailure>(e@),
        },
{
    match config.source_type {
        SourceType::Csv => match &config.csv {
            None => Err(SourceError::ParseError(String::from_str("Missing CSV configuration"))),
            Some(csv) => match CsvSource::new(csv) {
                Ok(source) => Ok(Source::Csv(source)),
                Err(e) => Err(e),
            },
        },
        SourceType::Json => match &config.json {
            None => Err(SourceError::ParseError(String::from_str("Missing JSON configuration"))),
            Some(json) => match JsonSource::new(json) {
                Ok(source) => Ok(Source::Json(source)),
                Err(e) => Err(e),
            },
        },
        SourceType::Http => match &config.http {
            None => Err(SourceError::ParseError(String::from_str("Missing HTTP configuration"))),
            Some(http) => match HttpSource::new(http) {
                Ok(source) => Ok(Source::Http(source)),
                Err(e) => Err(e),
            },
        },
    }
}

impl Source {
    /// The identifier under which the source appears in logs.
    pub fn source_id(&self) -> (r: &str)
        ensures
            r@ == self@.source_id(),
    {
        match self {
            Source::Csv(source) => source.source_id(),
            Source::Json(source) => source.source_id(),
            Source::Http(source) => source.source_id(),
        }
    }

    /// The unit label of the readings.
    pub fn unit(&self) -> (r: &str)
        ensures
            r@ == self@.unit(),
    {
        match self {
            Source::Csv(source) => source.unit(),
            Source::Json(source) => source.unit(),
            Source::Http(source) => source.unit(),
        }
    }

    /// The scale factor, as the bit pattern of a double.
    pub fn multiplier_bits(&self) -> (r: u64)
        ensures
            r == self@.multiplier_bits(),
    {
        match self {
            Source::Csv(source) => source.multiplier_bits(),
            Source::Json(source) => source.multiplier_bits(),
            Source::Http(source) => source.multiplier_bits(),
        }
    }

    /// Locates the measurement in what was read: the content of the file,
    /// or the body of the answer.
    pub fn locate(&self, content: &str) -> (r: Result<RawValue, SourceError>)
        ensures
            raw_view(r) == self@.located(content@),
    {
        match self {
            Source::Csv(source) => source.parse_value(content),
            Source::Json(source) => source.extract_value(content),
            Source::Http(source) => source.extract_value(content),
        }
    }

    /// Makes the reading of this cycle out of the scaled value and the
    /// instant at which it was captured.
    pub fn reading(&self, value_bits: u64, timestamp_millis: i64) -> (reading: Reading)
        ensures
            reading.value_bits == value_bits,
            reading.timestamp_millis == timestamp_millis,
            reading.unit@ == self@.unit(),
            reading.source_id@ == self@.source_id(),
    {
        Reading {
            value_bits,
            unit: String::from_str(self.unit()),
            timestamp_millis,
            source_id: String::from_str(self.source_id()),
        }
    }
}

} // verus!
