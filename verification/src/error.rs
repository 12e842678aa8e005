use vstd::prelude::*;
use vstd::string::StringExecFns;

verus! {

/// How one telemetry sub-operation can fail. Every sampling step fails
/// independently; an error is carried per field in the snapshot and rendered
/// inline, it never aborts the other fields.
#[derive(Debug)]
pub enum TelemetryError {
    /// The external diagnostic command could not be launched, or exited with
    /// a failure status; carries the underlying cause.
    CommandUnavailable(String),
    /// The diagnostic report has fewer lines than the highest required index.
    UnexpectedFormat,
    /// Positional extraction could not locate a field boundary: the line is
    /// shorter than the trailing offset, or no space precedes the field.
    MalformedLine,
    /// An extracted token is not valid for its expected numeric shape;
    /// carries the field name.
    ParseFailure(String),
    /// The platform does not expose this counter; carries the cause.
    SensorUnavailable(String),
}

/// Mathematical image of a `TelemetryError`: the same variants over
/// character sequences.
pub enum TelemetryErrorModel {
    CommandUnavailable(Seq<char>),
    UnexpectedFormat,
    MalformedLine,
    ParseFailure(Seq<char>),
    SensorUnavailable(Seq<char>),
}

impl View for TelemetryError {
    type V = TelemetryErrorModel;

    open spec fn view(&self) -> TelemetryErrorModel {
        match self {
            TelemetryError::CommandUnavailable(c) => TelemetryErrorModel::CommandUnavailable(c@),
            TelemetryError::UnexpectedFormat => TelemetryErrorModel::UnexpectedFormat,
            TelemetryError::MalformedLine => TelemetryErrorModel::MalformedLine,
            TelemetryError::ParseFailure(f) => TelemetryErrorModel::ParseFailure(f@),
            TelemetryError::SensorUnavailable(c) => TelemetryErrorModel::SensorUnavailable(c@),
        }
    }
}

/// The message that stands in for a failed field in the rendered report.
pub open spec fn spec_message(e: TelemetryErrorModel) -> Seq<char> {
    match e {
        TelemetryErrorModel::CommandUnavailable(c) => c,
        TelemetryErrorModel::UnexpectedFormat => "unexpected report format"@,
        TelemetryErrorModel::MalformedLine => "malformed line"@,
        TelemetryErrorModel::ParseFailure(f) => "parse failure: "@ + f,
        TelemetryErrorModel::SensorUnavailable(c) => c,
    }
}

impl TelemetryError {
    /// The human-readable cause, as substituted into the report.
    pub fn message(&self) -> (r: String)
        ensures
            r@ == spec_message(self@),
    {
        match self {
            TelemetryError::CommandUnavailable(c) => c.clone(),
            TelemetryError::UnexpectedFormat => String::from_str("unexpected report format"),
            TelemetryError::MalformedLine => String::from_str("malformed line"),
            TelemetryError::ParseFailure(f) => {
                let mut r = String::from_str("parse failure: ");
                r.append(f.as_str());
                r
            },
            TelemetryError::SensorUnavailable(c) => c.clone(),
        }
    }
}

} // verus!
