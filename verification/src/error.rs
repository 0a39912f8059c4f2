//! The two ways in which the generation of a report fails.

use vstd::prelude::*;
use vstd::string::StringExecFns;

verus! {

/// Why no report was produced. Each kind carries the complaint that caused it.
#[derive(Debug, Clone, PartialEq, Eq)]
pub enum ReportError {
    /// The payload is no well-formed record: it is not JSON, a required field is missing, or
    /// a field has the wrong type. Nothing was built.
    InputFormatError(String),
    /// The document could not be packed into an archive.
    PackagingError(String),
}

/// What an error holds, as mathematical values.
pub enum ReportErrorView {
    InputFormatError(Seq<char>),
    PackagingError(Seq<char>),
}

impl View for ReportError {
    type V = ReportErrorView;

    open spec fn view(&self) -> ReportErrorView {
        match self {
            ReportError::InputFormatError(complaint) => ReportErrorView::InputFormatError(
                complaint@,
            ),
            ReportError::PackagingError(complaint) => ReportErrorView::PackagingError(complaint@),
        }
    }
}

pub const INPUT_FORMAT_PREFIX: &'static str = "InputFormatError: ";

pub const PACKAGING_PREFIX: &'static str = "PackagingError: ";

/// The message of an error: the name of its kind, then its complaint.
pub open spec fn error_message(error: ReportErrorView) -> Seq<char> {
    match error {
        ReportErrorView::InputFormatError(complaint) => INPUT_FORMAT_PREFIX@ + complaint,
        ReportErrorView::PackagingError(complaint) => PACKAGING_PREFIX@ + complaint,
    }
}

impl ReportError {
    /// A message for people, which tells the two kinds apart.
    pub fn message(&self) -> (text: String)
        ensures
            text@ == error_message(self@),
    {
        match self {
            ReportError::InputFormatError(complaint) => String::from_str(
                INPUT_FORMAT_PREFIX,
            ).concat(complaint.as_str()),
            ReportError::PackagingError(complaint) => String::from_str(PACKAGING_PREFIX).concat(
                complaint.as_str(),
            ),
        }
    }
}

} // verus!
